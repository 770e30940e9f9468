//! Session-creation options and their exact wire encoding, and the types a
//! stream-information query is mapped into. These carry no signing logic,
//! but their wire values are part of the same request-body contract and
//! must be preserved exactly.

use crate::error::OpenTokError;
use vstd::prelude::*;

verus! {

/// Determines whether a session will transmit streams using the media
/// router or directly between clients.
#[derive(Debug, Clone, Copy, PartialEq, Eq, Structural)]
pub enum MediaMode {
    /// The session will try to transmit streams directly between clients.
    Relayed,
    /// The session will transmit streams using the media router.
    Routed,
}

/// The wire form of a media mode: its lowercase name.
pub open spec fn media_mode_wire(m: MediaMode) -> Seq<char> {
    match m {
        MediaMode::Relayed => "relayed"@,
        MediaMode::Routed => "routed"@,
    }
}

impl MediaMode {
    /// The string the wire format carries for this mode.
    pub fn as_wire_str(&self) -> (r: &'static str)
        ensures
            r@ == media_mode_wire(*self),
    {
        match self {
            MediaMode::Relayed => "relayed",
            MediaMode::Routed => "routed",
        }
    }
}

/// Determines whether a session is automatically archived or not.
#[derive(Debug, Clone, Copy, PartialEq, Eq, Structural)]
pub enum ArchiveMode {
    /// The session will always be archived automatically.
    Always,
    /// An explicit request is required to archive the session.
    Manual,
}

/// The wire form of an archive mode: its lowercase name.
pub open spec fn archive_mode_wire(m: ArchiveMode) -> Seq<char> {
    match m {
        ArchiveMode::Always => "always"@,
        ArchiveMode::Manual => "manual"@,
    }
}

impl ArchiveMode {
    /// The string the wire format carries for this mode.
    pub fn as_wire_str(&self) -> (r: &'static str)
        ensures
            r@ == archive_mode_wire(*self),
    {
        match self {
            ArchiveMode::Always => "always",
            ArchiveMode::Manual => "manual",
        }
    }
}

/// Session options to be provided at session creation time.
pub struct SessionOptions<'a> {
    /// An IP address used to situate the session in the global network; if
    /// unset, the first client connecting to the session decides.
    pub location: Option<&'a str>,
    /// Whether streams go through the media router; unset means relayed
    /// transmission, and the request field defaults to disabled.
    pub media_mode: Option<MediaMode>,
    /// Whether the session is archived automatically; unset defaults to
    /// manual archiving.
    pub archive_mode: Option<ArchiveMode>,
}

impl<'a> Default for SessionOptions<'a> {
    /// All options unset.
    fn default() -> (r: Self)
        ensures
            r.location is None,
            r.media_mode is None,
            r.archive_mode is None,
    {
        SessionOptions { location: None, media_mode: None, archive_mode: None }
    }
}

/// The `archiveMode` request field for the given option: the mode's
/// lowercase name, defaulting to manual when unset.
pub open spec fn archive_mode_field(m: Option<ArchiveMode>) -> Seq<char> {
    match m {
        Option::Some(mode) => archive_mode_wire(mode),
        Option::None => "manual"@,
    }
}

/// The `p2p.preference` request field for the given option: enabled only
/// for relayed transmission, disabled for routed and by default.
pub open spec fn p2p_preference_field(m: Option<MediaMode>) -> Seq<char> {
    match m {
        Option::Some(MediaMode::Relayed) => "enabled"@,
        _ => "disabled"@,
    }
}

/// The body of a session-creation request, with every field already in its
/// exact wire form.
pub struct CreateSessionBody<'a> {
    pub archive_mode: String,
    pub location: Option<&'a str>,
    pub p2p_preference: &'static str,
}

impl<'a> CreateSessionBody<'a> {
    /// Maps the caller's options to the request fields, applying the
    /// documented defaults for everything unset.
    pub fn from_options(options: SessionOptions<'a>) -> (r: Self)
        ensures
            r.archive_mode@ == archive_mode_field(options.archive_mode),
            r.p2p_preference@ == p2p_preference_field(options.media_mode),
            options.location matches Some(l) ==> r.location matches Some(m) && m@ == l@,
            options.location is None ==> r.location is None,
    {
        let archive_mode = match options.archive_mode {
            Some(mode) => mode.as_wire_str().to_owned(),
            None => "manual".to_owned(),
        };
        let p2p_preference: &'static str = match options.media_mode {
            Some(MediaMode::Relayed) => "enabled",
            _ => "disabled",
        };
        CreateSessionBody { archive_mode, location: options.location, p2p_preference }
    }
}

/// Reduces a session-creation response to the single session identifier it
/// must hold; any other count is an unexpected response carrying the raw
/// body.
pub fn single_session_id(ids: Vec<String>, raw: String) -> (r: Result<String, OpenTokError>)
    ensures
        ids@.len() == 1 ==> (r matches Ok(s) && s@ == ids@[0]@),
        ids@.len() != 1 ==> (r matches Err(e) && e matches OpenTokError::UnexpectedResponse(m)
            && m@ == raw@),
{
    let mut ids = ids;
    if ids.len() == 1 {
        match ids.pop() {
            Some(s) => Ok(s),
            None => Err(OpenTokError::UnexpectedResponse(raw)),
        }
    } else {
        Err(OpenTokError::UnexpectedResponse(raw))
    }
}

/// The kind of source a stream carries.
#[derive(Debug, Clone, Copy, PartialEq, Eq, Structural)]
pub enum VideoType {
    Camera,
    Screen,
    Custom,
}

/// The wire form of a video type: its lowercase name.
pub open spec fn video_type_wire(v: VideoType) -> Seq<char> {
    match v {
        VideoType::Camera => "camera"@,
        VideoType::Screen => "screen"@,
        VideoType::Custom => "custom"@,
    }
}

impl VideoType {
    /// The string the wire format carries for this video type.
    pub fn as_wire_str(&self) -> (r: &'static str)
        ensures
            r@ == video_type_wire(*self),
    {
        match self {
            VideoType::Camera => "camera",
            VideoType::Screen => "screen",
            VideoType::Custom => "custom",
        }
    }
}

/// What a stream-information query reports of one stream.
#[derive(Debug)]
pub struct StreamInfo {
    pub id: String,
    pub video_type: VideoType,
    pub name: String,
    pub layout_class_list: Vec<String>,
}

} // verus!
