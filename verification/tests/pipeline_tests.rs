use apod_desktop::error::ApodError;
use apod_desktop::pipeline::advance;
use apod_desktop::pipeline::initial_state;
use apod_desktop::pipeline::Action;
use apod_desktop::pipeline::Event;
use apod_desktop::pipeline::State;

fn config_text() -> String {
    String::from(
        "{\"api_key\":\"SECRET-REDACTED\",\"storage_dir\":\"/var/apod\",\
         \"favorite_dir\":\"/var/favorites\",\"background_path\":\"/var/background.jpg\"}",
    )
}

fn picture_body(media_type: &str) -> String {
    format!(
        "{{\"copyright\":\"A Photographer\",\"date\":\"2024-03-05\",\
         \"explanation\":\"A nebula.\",\"hdurl\":\"https://example.com/img/neb.jpg\",\
         \"media_type\":\"{}\",\"title\":\"Nebula\"}}",
        media_type
    )
}

fn minimal_jpeg() -> Vec<u8> {
    vec![0xff, 0xd8, 0xff, 0xd9]
}

#[test]
fn fetch_mode_runs_to_done() {
    let s0 = initial_state(false);
    let (s1, a1) = advance(s0, Event::ConfigText { text: Some(config_text()) });
    match &a1 {
        Action::FetchMetadata { api_key } => assert_eq!(api_key.as_str(), "SECRET-REDACTED"),
        _ => panic!("expected a metadata fetch"),
    }

    let (s2, a2) = advance(
        s1,
        Event::MetadataResponse { status: 200, body: Some(picture_body("image")) },
    );
    match &a2 {
        Action::FetchAsset { url } => {
            assert_eq!(url.as_str(), "https://example.com/img/neb.jpg")
        },
        _ => panic!("expected an asset fetch"),
    }

    let (s3, a3) = advance(
        s2,
        Event::AssetResponse { status: 200, body: Some(minimal_jpeg()) },
    );
    let plan = match a3 {
        Action::WriteAndCopy { plan } => plan,
        _ => panic!("expected a write"),
    };
    assert_eq!(plan.file_name.as_str(), "2024-03-05.jpg");
    assert_eq!(plan.storage_path.as_str(), "/var/apod/2024-03-05.jpg");
    assert_eq!(plan.background_path.as_str(), "/var/background.jpg");
    assert!(plan.bytes.starts_with(&[0xff, 0xd8]));

    let (s4, a4) = advance(s3, Event::Wrote { ok: true });
    assert!(matches!(a4, Action::Finish));
    assert!(matches!(s4, State::Done));
}

#[test]
fn video_day_stops_before_any_asset_fetch() {
    let s0 = initial_state(false);
    let (s1, _) = advance(s0, Event::ConfigText { text: Some(config_text()) });
    let (s2, a2) = advance(
        s1,
        Event::MetadataResponse { status: 200, body: Some(picture_body("video")) },
    );
    assert!(matches!(a2, Action::Fail { error: ApodError::MediaTypeError }));
    assert!(matches!(s2, State::Failed { error: ApodError::MediaTypeError }));
}

#[test]
fn transport_failure_is_fetch_error() {
    let s0 = initial_state(false);
    let (s1, _) = advance(s0, Event::ConfigText { text: Some(config_text()) });
    let (s2, a2) = advance(s1, Event::MetadataResponse { status: 0, body: None });
    assert!(matches!(a2, Action::Fail { error: ApodError::FetchError }));
    assert!(matches!(s2, State::Failed { error: ApodError::FetchError }));
}

#[test]
fn non_success_status_is_fetch_error() {
    let s0 = initial_state(false);
    let (s1, _) = advance(s0, Event::ConfigText { text: Some(config_text()) });
    let (_, a2) = advance(
        s1,
        Event::MetadataResponse { status: 503, body: Some(picture_body("image")) },
    );
    assert!(matches!(a2, Action::Fail { error: ApodError::FetchError }));
}

#[test]
fn unreadable_config_is_config_error() {
    let s0 = initial_state(false);
    let (s1, a1) = advance(s0, Event::ConfigText { text: None });
    assert!(matches!(a1, Action::Fail { error: ApodError::ConfigError }));
    assert!(matches!(s1, State::Failed { error: ApodError::ConfigError }));
}

#[test]
fn url_without_extension_fails_before_any_write() {
    let body = String::from(
        "{\"date\":\"2024-03-05\",\"explanation\":\"x\",\
         \"hdurl\":\"https://example.com/image\",\"media_type\":\"image\",\
         \"title\":\"t\"}",
    );
    let s0 = initial_state(false);
    let (s1, _) = advance(s0, Event::ConfigText { text: Some(config_text()) });
    let (s2, _) = advance(s1, Event::MetadataResponse { status: 200, body: Some(body) });
    let (_, a3) = advance(
        s2,
        Event::AssetResponse { status: 200, body: Some(minimal_jpeg()) },
    );
    assert!(matches!(a3, Action::Fail { error: ApodError::ExtensionError }));
}

#[test]
fn failed_write_is_io_error() {
    let s0 = initial_state(false);
    let (s1, _) = advance(s0, Event::ConfigText { text: Some(config_text()) });
    let (s2, _) = advance(
        s1,
        Event::MetadataResponse { status: 200, body: Some(picture_body("image")) },
    );
    let (s3, _) = advance(
        s2,
        Event::AssetResponse { status: 200, body: Some(minimal_jpeg()) },
    );
    let (s4, a4) = advance(s3, Event::Wrote { ok: false });
    assert!(matches!(a4, Action::Fail { error: ApodError::IoError }));
    assert!(matches!(s4, State::Failed { error: ApodError::IoError }));
}

#[test]
fn save_mode_links_the_newest_entry() {
    let s0 = initial_state(true);
    let (s1, a1) = advance(s0, Event::ConfigText { text: Some(config_text()) });
    match &a1 {
        Action::ListStorage { dir } => assert_eq!(dir.as_str(), "/var/apod"),
        _ => panic!("expected a directory listing"),
    }

    let names: Vec<Vec<u8>> = vec![
        b"2024-01-01.jpg".to_vec(),
        b"2024-01-15.jpg".to_vec(),
        b"2024-02-01.png".to_vec(),
    ];
    let (s2, a2) = advance(s1, Event::Listing { names: Some(names) });
    match &a2 {
        Action::CreateLink { target, link } => {
            assert_eq!(target, &b"/var/apod/2024-02-01.png".to_vec());
            assert_eq!(link, &b"/var/favorites/2024-02-01.png".to_vec());
        },
        _ => panic!("expected a link"),
    }

    let (s3, a3) = advance(s2, Event::Linked { ok: true });
    assert!(matches!(a3, Action::Finish));
    assert!(matches!(s3, State::Done));
}

#[test]
fn save_mode_with_empty_storage_is_directory_error() {
    let s0 = initial_state(true);
    let (s1, _) = advance(s0, Event::ConfigText { text: Some(config_text()) });
    let (_, a2) = advance(s1, Event::Listing { names: Some(Vec::new()) });
    assert!(matches!(a2, Action::Fail { error: ApodError::DirectoryError }));
}

#[test]
fn save_mode_with_unreadable_storage_is_directory_error() {
    let s0 = initial_state(true);
    let (s1, _) = advance(s0, Event::ConfigText { text: Some(config_text()) });
    let (_, a2) = advance(s1, Event::Listing { names: None });
    assert!(matches!(a2, Action::Fail { error: ApodError::DirectoryError }));
}

#[test]
fn failed_link_is_link_error() {
    let s0 = initial_state(true);
    let (s1, _) = advance(s0, Event::ConfigText { text: Some(config_text()) });
    let names: Vec<Vec<u8>> = vec![b"2024-01-01.jpg".to_vec()];
    let (s2, _) = advance(s1, Event::Listing { names: Some(names) });
    let (_, a3) = advance(s2, Event::Linked { ok: false });
    assert!(matches!(a3, Action::Fail { error: ApodError::LinkError }));
}

#[test]
fn terminal_states_ignore_further_events() {
    let (s1, a1) = advance(State::Done, Event::Wrote { ok: true });
    assert!(matches!(s1, State::Done));
    assert!(matches!(a1, Action::Idle));

    let failed = State::Failed { error: ApodError::FetchError };
    let (s2, a2) = advance(failed, Event::Linked { ok: true });
    assert!(matches!(s2, State::Failed { error: ApodError::FetchError }));
    assert!(matches!(a2, Action::Idle));
}
