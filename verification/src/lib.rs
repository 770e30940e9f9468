//! Token and signature generation for an OpenTok-style real-time
//! communication platform: a signed server-authentication assertion for
//! management-API calls, and a signed, role-scoped client session token
//! handed to end-user applications. Both wire formats are stated
//! character-exactly and the builders are proved to produce them.

use vstd::prelude::*;

pub mod client_token;
pub mod error;
pub mod server_token;
pub mod session;
pub mod trusted;
pub mod wire;

pub use client_token::{token_chars, TokenData, TOKEN_VALIDITY_SECONDS};
pub use error::{error_from_status, OpenTokError};
pub use server_token::{assertion_chars, auth_header, auth_header_at, Claims,
    ASSERTION_VALIDITY_SECONDS};
pub use session::{single_session_id, ArchiveMode, CreateSessionBody, MediaMode, SessionOptions,
    StreamInfo, VideoType};

verus! {

/// Unique session identifier.
pub type SessionId = String;

/// Permission level embedded in a client session token. Its lowercase
/// name is the exact wire value the remote verifier expects.
#[derive(Debug, Clone, Copy, PartialEq, Eq, Structural)]
pub enum TokenRole {
    Publisher,
    Subscriber,
    Moderator,
}

/// The exact wire form of a role: its lowercase name.
pub open spec fn role_wire(role: TokenRole) -> Seq<char> {
    match role {
        TokenRole::Publisher => "publisher"@,
        TokenRole::Subscriber => "subscriber"@,
        TokenRole::Moderator => "moderator"@,
    }
}

impl TokenRole {
    /// The string the wire format carries for this role.
    pub fn as_wire_str(&self) -> (r: &'static str)
        ensures
            r@ == role_wire(*self),
    {
        match self {
            TokenRole::Publisher => "publisher",
            TokenRole::Subscriber => "subscriber",
            TokenRole::Moderator => "moderator",
        }
    }
}

/// Top level entry point. Owns an account's API key and secret for its
/// whole lifetime; the secret is only ever used locally as a signing key,
/// never embedded in a token.
pub struct OpenTok {
    api_key: String,
    api_secret: String,
}

impl OpenTok {
    /// The key the instance was created with, as the contracts speak of it.
    pub closed spec fn spec_api_key(self) -> Seq<char> {
        self.api_key@
    }

    /// The secret the instance was created with, as the contracts speak of
    /// it.
    pub closed spec fn spec_api_secret(self) -> Seq<char> {
        self.api_secret@
    }

    /// Create a new instance. Requires an API key and the API secret for
    /// the account. Do not publicly share the API secret.
    pub fn new(api_key: String, api_secret: String) -> (r: Self)
        ensures
            r.spec_api_key() == api_key@,
            r.spec_api_secret() == api_secret@,
    {
        OpenTok { api_key, api_secret }
    }

    /// The account's API key.
    pub fn api_key(&self) -> (r: &String)
        ensures
            r@ == self.spec_api_key(),
    {
        &self.api_key
    }

    /// The account's API secret.
    pub fn api_secret(&self) -> (r: &String)
        ensures
            r@ == self.spec_api_secret(),
    {
        &self.api_secret
    }

    /// Builds the client session token for an explicit creation time and
    /// nonce, for callers that inject their own clock and randomness.
    pub fn generate_token_at(
        &self,
        session_id: &str,
        role: TokenRole,
        create_time: u64,
        nonce: u64,
    ) -> (r: String)
        requires
            create_time <= u64::MAX - TOKEN_VALIDITY_SECONDS,
        ensures
            r@ == token_chars(
                self.spec_api_key(),
                self.spec_api_secret(),
                session_id@,
                role,
                create_time,
                nonce,
            ),
    {
        let data = TokenData::from_parts(session_id, role, create_time, nonce);
        let r = client_token::token_for(self.api_key.as_str(), self.api_secret.as_str(), &data);
        proof {
            assert(r@ =~= token_chars(
                self.spec_api_key(),
                self.spec_api_secret(),
                session_id@,
                role,
                create_time,
                nonce,
            ));
        }
        r
    }

    /// Builds the role-scoped token an end-user client presents to join
    /// the session, stamped with the current wall-clock time and a fresh
    /// random nonce. The validity window is always exactly one day.
    pub fn generate_token(&self, session_id: &str, role: TokenRole) -> (r: String)
        ensures
            exists|create_time: u64, nonce: u64|
                create_time <= u64::MAX - TOKEN_VALIDITY_SECONDS && r@ == token_chars(
                    self.spec_api_key(),
                    self.spec_api_secret(),
                    session_id@,
                    role,
                    create_time,
                    nonce,
                ),
    {
        let now = trusted::unix_time_seconds();
        let create_time = if now > u64::MAX - TOKEN_VALIDITY_SECONDS {
            u64::MAX - TOKEN_VALIDITY_SECONDS
        } else {
            now
        };
        let nonce = trusted::random_u64();
        let r = self.generate_token_at(session_id, role, create_time, nonce);
        proof {
            assert(create_time <= u64::MAX - TOKEN_VALIDITY_SECONDS && r@ == token_chars(
                self.spec_api_key(),
                self.spec_api_secret(),
                session_id@,
                role,
                create_time,
                nonce,
            ));
        }
        r
    }
}

} // verus!
