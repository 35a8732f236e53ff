use apod_desktop::error::ApodError;
use apod_desktop::favorite::lex_le_exec;
use apod_desktop::favorite::select_newest;

#[test]
fn newest_of_three_dated_names() {
    let names: Vec<Vec<u8>> = vec![
        b"2024-01-01.jpg".to_vec(),
        b"2024-01-15.jpg".to_vec(),
        b"2024-02-01.png".to_vec(),
    ];
    let best = select_newest(&names).unwrap();
    assert_eq!(best, b"2024-02-01.png".to_vec());
}

#[test]
fn newest_is_order_independent() {
    let names: Vec<Vec<u8>> = vec![
        b"2024-02-01.png".to_vec(),
        b"2024-01-15.jpg".to_vec(),
        b"2024-01-01.jpg".to_vec(),
    ];
    let best = select_newest(&names).unwrap();
    assert_eq!(best, b"2024-02-01.png".to_vec());
}

#[test]
fn empty_listing_is_directory_error() {
    let names: Vec<Vec<u8>> = Vec::new();
    assert_eq!(select_newest(&names), Err(ApodError::DirectoryError));
}

#[test]
fn single_entry_is_selected() {
    let names: Vec<Vec<u8>> = vec![b"2023-12-31.png".to_vec()];
    assert_eq!(select_newest(&names).unwrap(), b"2023-12-31.png".to_vec());
}

#[test]
fn byte_wise_comparison_orders_names() {
    assert!(lex_le_exec(&b"2024-01-01".to_vec(), &b"2024-01-02".to_vec()));
    assert!(!lex_le_exec(&b"2024-01-02".to_vec(), &b"2024-01-01".to_vec()));
    assert!(lex_le_exec(&b"abc".to_vec(), &b"abcd".to_vec()));
    assert!(!lex_le_exec(&b"abcd".to_vec(), &b"abc".to_vec()));
    assert!(lex_le_exec(&b"same".to_vec(), &b"same".to_vec()));
}
