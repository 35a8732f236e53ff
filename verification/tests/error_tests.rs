use apod_desktop::error::ApodError;

#[test]
fn each_error_kind_has_a_distinct_message() {
    let kinds = [
        ApodError::ConfigError,
        ApodError::FetchError,
        ApodError::SchemaError,
        ApodError::MediaTypeError,
        ApodError::EncodingError,
        ApodError::ExtensionError,
        ApodError::IoError,
        ApodError::DirectoryError,
        ApodError::LinkError,
    ];
    for (i, a) in kinds.iter().enumerate() {
        assert!(!a.message().is_empty());
        for b in kinds.iter().skip(i + 1) {
            assert_ne!(a.message(), b.message());
        }
    }
}

#[test]
fn media_type_message_names_the_condition() {
    assert!(ApodError::MediaTypeError.message().contains("media type"));
}
