use reader_core::content::page_offset;
use reader_core::content::slice_content;
use reader_core::errors::AppError;
use reader_core::models::ContentParams;
use reader_core::models::PaginationParams;

#[test]
fn slice_window_and_next_position() {
    let text: String = "x".repeat(250);
    let r = slice_content(&text, &ContentParams { position: 0, length: Some(100) }).unwrap();
    assert_eq!(r.content.chars().count(), 100);
    assert_eq!(r.next_position, 100);
}

#[test]
fn slice_length_clamped_low_and_high() {
    let text: String = "y".repeat(20000);
    let low = slice_content(&text, &ContentParams { position: 0, length: Some(5) }).unwrap();
    assert_eq!(low.next_position, 100);
    let high = slice_content(&text, &ContentParams { position: 0, length: Some(99999) }).unwrap();
    assert_eq!(high.next_position, 10000);
}

#[test]
fn slice_default_length_is_4000() {
    let text: String = "z".repeat(5000);
    let r = slice_content(&text, &ContentParams { position: 0, length: None }).unwrap();
    assert_eq!(r.next_position, 4000);
}

#[test]
fn slice_position_out_of_range() {
    let text = "短文".to_string();
    match slice_content(&text, &ContentParams { position: 2, length: None }) {
        Err(AppError::BadRequest(m)) => assert_eq!(m, "位置超出内容范围"),
        _ => panic!("expected a bad-request error"),
    }
    assert!(slice_content("", &ContentParams { position: 0, length: None }).is_err());
}

#[test]
fn slice_negative_position_reads_from_start() {
    let r = slice_content("abcdef", &ContentParams { position: -7, length: Some(100) }).unwrap();
    assert_eq!(r.content, "abcdef");
    assert_eq!(r.next_position, 6);
}

#[test]
fn slice_counts_characters_not_bytes() {
    // Multi-byte characters are one position each, so a window can never
    // cut one in half.
    let text = "零一二三四五六七八九".to_string();
    let r = slice_content(&text, &ContentParams { position: 8, length: Some(100) }).unwrap();
    assert_eq!(r.content, "八九");
    assert_eq!(r.next_position, 10);
}

#[test]
fn pagination_defaults() {
    let (page, limit, offset) = page_offset(&PaginationParams { page: None, limit: None });
    assert_eq!((page, limit, offset), (1, 10, 0));
}

#[test]
fn pagination_offset() {
    let p = PaginationParams { page: Some(3), limit: Some(20) };
    let (page, limit, offset) = page_offset(&p);
    assert_eq!((page, limit, offset), (3, 20, 40));
}
