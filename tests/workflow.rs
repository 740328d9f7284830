use video_processing::error::ProcessError;
use video_processing::media::{is_video_file, is_video_mime};
use video_processing::negotiate::{
    check_negotiation_status, check_upload_status, interpret_negotiation, parse_upload_target,
    upload_target_from,
};
use video_processing::poll::{playback_url_from, playback_url_in, PollAction, PollConfig, PollPhase, Poller};
use video_processing::validate::validate_input;

const GOOD_BODY: &str = r#"{"url":"https://up.example/x","asset":{"id":"abc123"}}"#;

#[test]
fn video_mime_types() {
    assert!(is_video_mime("video/mp4"));
    assert!(is_video_mime("video"));
    assert!(!is_video_mime("vide"));
    assert!(!is_video_mime("application/octet-stream"));
    assert!(!is_video_mime("audio/video"));
    assert!(!is_video_mime(""));
}

#[test]
fn video_files_by_extension() {
    assert!(is_video_file("clips/holiday.mp4"));
    assert!(is_video_file("movie.MKV"));
    assert!(!is_video_file("notes.txt"));
    assert!(!is_video_file("song.mp3"));
    assert!(!is_video_file("no_extension"));
}

#[test]
fn missing_file_is_refused_first() {
    assert_eq!(validate_input("holiday.mp4", false).unwrap_err(), ProcessError::MissingFile);
    assert_eq!(validate_input("notes.txt", false).unwrap_err(), ProcessError::MissingFile);
}

#[test]
fn non_video_file_is_refused() {
    assert_eq!(validate_input("notes.txt", true).unwrap_err(), ProcessError::NotVideo);
    assert_eq!(validate_input("archive", true).unwrap_err(), ProcessError::NotVideo);
}

#[test]
fn video_file_is_accepted_with_its_name() {
    let f = validate_input("media/clips/holiday.mp4", true).unwrap();
    assert_eq!(f.path(), "media/clips/holiday.mp4");
    assert_eq!(f.file_name(), "holiday.mp4");
}

#[test]
fn input_errors_are_told_apart() {
    assert!(ProcessError::MissingFile.is_input_error());
    assert!(ProcessError::NotVideo.is_input_error());
    assert!(ProcessError::InvalidFileName.is_input_error());
    assert!(!ProcessError::Transport.is_input_error());
    assert!(!ProcessError::TimedOut { asset_id: "a".to_string() }.is_input_error());
}

#[test]
fn negotiation_success_yields_target() {
    let t = interpret_negotiation(200, GOOD_BODY).unwrap();
    assert_eq!(t.asset_id(), "abc123");
    assert_eq!(t.url(), "https://up.example/x");
    let t = parse_upload_target(GOOD_BODY).unwrap();
    assert_eq!(t.asset_id(), "abc123");
    assert_eq!(t.url(), "https://up.example/x");
}

#[test]
fn negotiation_unauthorized_ignores_body() {
    assert_eq!(interpret_negotiation(401, GOOD_BODY).unwrap_err(), ProcessError::Unauthorized);
    assert_eq!(interpret_negotiation(401, "not json").unwrap_err(), ProcessError::Unauthorized);
    assert_eq!(check_negotiation_status(401).unwrap_err(), ProcessError::Unauthorized);
}

#[test]
fn negotiation_other_status_is_fatal() {
    assert_eq!(
        interpret_negotiation(500, GOOD_BODY).unwrap_err(),
        ProcessError::UnexpectedStatus { status: 500 }
    );
    assert_eq!(
        check_negotiation_status(201).unwrap_err(),
        ProcessError::UnexpectedStatus { status: 201 }
    );
    assert!(check_negotiation_status(200).is_ok());
}

#[test]
fn negotiation_malformed_body_is_deserialization_error() {
    assert_eq!(interpret_negotiation(200, "\"not json").unwrap_err(), ProcessError::Deserialization);
    assert_eq!(interpret_negotiation(200, "not json").unwrap_err(), ProcessError::Deserialization);
    assert_eq!(parse_upload_target("").unwrap_err(), ProcessError::Deserialization);
}

#[test]
fn negotiation_body_missing_fields() {
    let no_asset = r#"{"url":"https://up.example/x"}"#;
    let no_url = r#"{"asset":{"id":"abc123"}}"#;
    let id_not_string = r#"{"url":"https://up.example/x","asset":{"id":7}}"#;
    let empty_url = r#"{"url":"","asset":{"id":"abc123"}}"#;
    for body in [no_asset, no_url, id_not_string, empty_url] {
        assert_eq!(parse_upload_target(body).unwrap_err(), ProcessError::Deserialization);
    }
}

#[test]
fn negotiation_from_parsed_document() {
    let doc: serde_json::Value = serde_json::from_str(GOOD_BODY).unwrap();
    let t = upload_target_from(&doc).unwrap();
    assert_eq!(t.asset_id(), "abc123");
    assert_eq!(t.url(), "https://up.example/x");
    let extra = r#"{"url":"u","asset":{"id":"i","name":"n"},"task":{"id":"t"}}"#;
    let t = parse_upload_target(extra).unwrap();
    assert_eq!(t.asset_id(), "i");
    assert_eq!(t.url(), "u");
}

#[test]
fn upload_status() {
    assert!(check_upload_status(200).is_ok());
    assert!(check_upload_status(204).is_ok());
    assert_eq!(check_upload_status(403).unwrap_err(), ProcessError::UploadRejected { status: 403 });
    assert_eq!(check_upload_status(302).unwrap_err(), ProcessError::UploadRejected { status: 302 });
}

#[test]
fn status_body_playback_url() {
    assert_eq!(playback_url_in(r#"{"playbackUrl":null}"#).unwrap(), None);
    assert_eq!(playback_url_in(r#"{"id":"abc123"}"#).unwrap(), None);
    assert_eq!(
        playback_url_in(r#"{"id":"abc123","playbackUrl":"https://cdn.example/v.m3u8"}"#).unwrap(),
        Some("https://cdn.example/v.m3u8".to_string())
    );
    assert_eq!(playback_url_in("<html>").unwrap_err(), ProcessError::Deserialization);
    let doc: serde_json::Value = serde_json::from_str(r#"{"playbackUrl":"p"}"#).unwrap();
    assert_eq!(playback_url_from(&doc), Some("p".to_string()));
}

#[test]
fn standard_config_values() {
    let c = PollConfig::standard();
    assert_eq!(c.interval, 20);
    assert_eq!(c.max_elapsed, 600);
    assert!(PollConfig::new(0, 600).is_none());
    assert!(PollConfig::new(u64::MAX, 1).is_none());
    assert_eq!(PollConfig::new(5, 10), Some(PollConfig { interval: 5, max_elapsed: 10 }));
}

fn query(asset: &str) -> PollAction {
    PollAction::Query { asset_id: asset.to_string() }
}

#[test]
fn poll_found_on_third_query() {
    let (mut p, a) = Poller::start("abc123".to_string(), PollConfig::standard());
    assert_eq!(a, query("abc123"));
    let mut answers = vec![None, None, Some("https://cdn.example/v.m3u8".to_string())].into_iter();
    let mut waited: u64 = 0;
    let mut action = a;
    loop {
        action = match action {
            PollAction::Query { .. } => p.on_status(answers.next().unwrap()),
            PollAction::Wait { seconds } => {
                waited += seconds;
                p.on_waited()
            }
            _ => break,
        };
    }
    assert_eq!(action, PollAction::Found { playback_url: "https://cdn.example/v.m3u8".to_string() });
    assert_eq!(p.queries(), 3);
    assert_eq!(p.elapsed(), 40);
    assert_eq!(waited, 40);
    assert_eq!(p.phase(), PollPhase::Found);
}

#[test]
fn poll_times_out_after_thirty_queries() {
    let (mut p, mut action) = Poller::start("abc123".to_string(), PollConfig::standard());
    let mut waits: u64 = 0;
    loop {
        action = match action {
            PollAction::Query { .. } => p.on_status(None),
            PollAction::Wait { .. } => {
                waits += 1;
                p.on_waited()
            }
            _ => break,
        };
    }
    assert_eq!(action, PollAction::TimedOut { asset_id: "abc123".to_string() });
    assert_eq!(p.queries(), 30);
    assert_eq!(waits, 30);
    assert_eq!(p.elapsed(), 600);
    assert_eq!(p.phase(), PollPhase::TimedOut);
}

#[test]
fn poll_already_processed_asset() {
    let (mut p, a) = Poller::start("done".to_string(), PollConfig::standard());
    assert_eq!(a, query("done"));
    let a = p.on_status(Some("https://cdn.example/done.m3u8".to_string()));
    assert_eq!(a, PollAction::Found { playback_url: "https://cdn.example/done.m3u8".to_string() });
    assert_eq!(p.queries(), 1);
    assert_eq!(p.elapsed(), 0);
}

#[test]
fn poll_interval_not_dividing_maximum() {
    let (mut p, mut action) = Poller::start("x".to_string(), PollConfig::new(7, 20).unwrap());
    loop {
        action = match action {
            PollAction::Query { .. } => p.on_status(None),
            PollAction::Wait { seconds } => {
                assert_eq!(seconds, 7);
                p.on_waited()
            }
            _ => break,
        };
    }
    assert_eq!(p.queries(), 3);
    assert_eq!(p.elapsed(), 21);
}

#[test]
fn poll_zero_maximum_never_queries() {
    let (p, a) = Poller::start("x".to_string(), PollConfig::new(20, 0).unwrap());
    assert_eq!(a, PollAction::TimedOut { asset_id: "x".to_string() });
    assert_eq!(p.queries(), 0);
    assert_eq!(p.phase(), PollPhase::TimedOut);
}
