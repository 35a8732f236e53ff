use apod_desktop::error::ApodError;
use apod_desktop::text::get_file_extension;
use apod_desktop::text::image_file_name;
use apod_desktop::text::join_path;
use apod_desktop::text::join_path_bytes;

#[test]
fn extension_of_jpg_url() {
    let r = get_file_extension("https://example.com/img/apod.jpg");
    assert_eq!(r, Ok("jpg"));
}

#[test]
fn extension_is_after_last_dot_of_last_segment() {
    assert_eq!(get_file_extension("https://a.example/c.d.png"), Ok("png"));
    assert_eq!(get_file_extension("picture.jpeg"), Ok("jpeg"));
}

#[test]
fn url_without_extension_is_extension_error() {
    let r = get_file_extension("https://example.com/image");
    assert_eq!(r, Err(ApodError::ExtensionError));
}

#[test]
fn dot_in_host_does_not_give_an_extension() {
    assert_eq!(
        get_file_extension("https://example.com/image"),
        Err(ApodError::ExtensionError)
    );
    assert_eq!(get_file_extension("a.b/c"), Err(ApodError::ExtensionError));
}

#[test]
fn empty_url_is_extension_error() {
    assert_eq!(get_file_extension(""), Err(ApodError::ExtensionError));
}

#[test]
fn file_name_is_date_dot_extension() {
    let name = image_file_name("2024-01-01", "jpg");
    assert_eq!(name.as_str(), "2024-01-01.jpg");
}

#[test]
fn join_path_inserts_one_slash() {
    let p = join_path("/var/pictures", "2024-01-01.jpg");
    assert_eq!(p.as_str(), "/var/pictures/2024-01-01.jpg");
}

#[test]
fn join_path_bytes_inserts_one_slash() {
    let name: Vec<u8> = b"2024-01-01.jpg".to_vec();
    let p = join_path_bytes("/var/pictures", &name);
    assert_eq!(p, b"/var/pictures/2024-01-01.jpg".to_vec());
}
