use apod_desktop::config::parse_config;
use apod_desktop::error::ApodError;

fn full_config_text() -> String {
    String::from(
        "{\"api_key\":\"SECRET-REDACTED\",\"storage_dir\":\"/var/apod\",\
         \"favorite_dir\":\"/var/favorites\",\"background_path\":\"/var/background.jpg\"}",
    )
}

#[test]
fn full_config_parses() {
    let cfg = parse_config(&full_config_text()).unwrap();
    assert_eq!(cfg.api_key.as_str(), "SECRET-REDACTED");
    assert_eq!(cfg.storage_dir.as_str(), "/var/apod");
    assert_eq!(cfg.favorite_dir.as_str(), "/var/favorites");
    assert_eq!(cfg.background_path.as_str(), "/var/background.jpg");
}

#[test]
fn missing_api_key_is_config_error() {
    let text = "{\"storage_dir\":\"/var/apod\",\"favorite_dir\":\"/var/favorites\",\
                \"background_path\":\"/var/background.jpg\"}";
    assert!(matches!(parse_config(text), Err(ApodError::ConfigError)));
}

#[test]
fn missing_background_path_is_config_error() {
    let text = "{\"api_key\":\"k\",\"storage_dir\":\"/s\",\"favorite_dir\":\"/f\"}";
    assert!(matches!(parse_config(text), Err(ApodError::ConfigError)));
}

#[test]
fn non_string_field_is_config_error() {
    let text = "{\"api_key\":7,\"storage_dir\":\"/s\",\"favorite_dir\":\"/f\",\
                \"background_path\":\"/b\"}";
    assert!(matches!(parse_config(text), Err(ApodError::ConfigError)));
}

#[test]
fn malformed_text_is_config_error() {
    assert!(matches!(
        parse_config("this is not json"),
        Err(ApodError::ConfigError)
    ));
    assert!(matches!(parse_config(""), Err(ApodError::ConfigError)));
}
