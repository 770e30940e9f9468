use opentok_server::{
    error_from_status, single_session_id, ArchiveMode, CreateSessionBody, MediaMode,
    OpenTokError, SessionOptions, TokenRole, VideoType,
};

#[test]
fn media_mode_mapping() {
    let relayed = CreateSessionBody::from_options(SessionOptions {
        location: None,
        media_mode: Some(MediaMode::Relayed),
        archive_mode: None,
    });
    assert_eq!(relayed.p2p_preference, "enabled");

    let routed = CreateSessionBody::from_options(SessionOptions {
        location: None,
        media_mode: Some(MediaMode::Routed),
        archive_mode: None,
    });
    assert_eq!(routed.p2p_preference, "disabled");

    let unset = CreateSessionBody::from_options(SessionOptions::default());
    assert_eq!(unset.p2p_preference, "disabled");
}

#[test]
fn archive_mode_default_and_values() {
    let unset = CreateSessionBody::from_options(SessionOptions::default());
    assert_eq!(unset.archive_mode, "manual");

    let always = CreateSessionBody::from_options(SessionOptions {
        location: None,
        media_mode: None,
        archive_mode: Some(ArchiveMode::Always),
    });
    assert_eq!(always.archive_mode, "always");

    let manual = CreateSessionBody::from_options(SessionOptions {
        location: None,
        media_mode: None,
        archive_mode: Some(ArchiveMode::Manual),
    });
    assert_eq!(manual.archive_mode, "manual");
}

#[test]
fn location_is_kept() {
    let body = CreateSessionBody::from_options(SessionOptions {
        location: Some("12.34.56.78"),
        media_mode: None,
        archive_mode: None,
    });
    assert_eq!(body.location, Some("12.34.56.78"));
}

#[test]
fn status_classification() {
    assert_eq!(
        error_from_status(404, "m".into()),
        OpenTokError::BadRequest("m".into())
    );
    assert_eq!(
        error_from_status(500, "m".into()),
        OpenTokError::ServerError("m".into())
    );
    assert_eq!(error_from_status(302, "m".into()), OpenTokError::__Unknown);
}

#[test]
fn session_response_counts() {
    assert_eq!(
        single_session_id(vec!["a".into()], "raw".into()),
        Ok("a".into())
    );
    assert_eq!(
        single_session_id(Vec::new(), "raw".into()),
        Err(OpenTokError::UnexpectedResponse("raw".into()))
    );
    assert_eq!(
        single_session_id(vec!["a".into(), "b".into()], "raw".into()),
        Err(OpenTokError::UnexpectedResponse("raw".into()))
    );
}

#[test]
fn error_messages() {
    assert_eq!(
        OpenTokError::EncodingError.message(),
        "Cannot encode request"
    );
    assert_eq!(
        OpenTokError::BadRequest("oops".into()).message(),
        "Bad request oops"
    );
    assert_eq!(
        OpenTokError::ServerError("down".into()).message(),
        "OpenTok server error down"
    );
    assert_eq!(
        OpenTokError::UnexpectedResponse("what".into()).message(),
        "Unexpected response what"
    );
    assert_eq!(OpenTokError::__Unknown.message(), "Unknown error");
}

#[test]
fn wire_strings() {
    assert_eq!(TokenRole::Publisher.as_wire_str(), "publisher");
    assert_eq!(TokenRole::Subscriber.as_wire_str(), "subscriber");
    assert_eq!(TokenRole::Moderator.as_wire_str(), "moderator");
    assert_eq!(MediaMode::Relayed.as_wire_str(), "relayed");
    assert_eq!(MediaMode::Routed.as_wire_str(), "routed");
    assert_eq!(ArchiveMode::Always.as_wire_str(), "always");
    assert_eq!(ArchiveMode::Manual.as_wire_str(), "manual");
    assert_eq!(VideoType::Camera.as_wire_str(), "camera");
    assert_eq!(VideoType::Screen.as_wire_str(), "screen");
    assert_eq!(VideoType::Custom.as_wire_str(), "custom");
}
