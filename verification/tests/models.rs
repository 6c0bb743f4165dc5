use reader_core::auth::i64_to_string;
use reader_core::content::random_count;
use reader_core::models::settings_or_default;
use reader_core::models::RandomPublicParams;
use reader_core::models::Settings;
use reader_core::auth::Claims;
use reader_core::models::build_book_detail;
use reader_core::models::build_book_list_item;
use reader_core::models::build_user_info;
use reader_core::models::update_has_changes;
use reader_core::models::Book;
use reader_core::models::ChapterResponse;
use reader_core::models::UpdateBookRequest;
use reader_core::models::User;

fn book(owner: i64, is_public: bool) -> Book {
    Book {
        id: 5,
        user_id: owner,
        title: "旧日的故事".to_string(),
        author: Some("佚名".to_string()),
        file_path: "books/5.txt".to_string(),
        is_public,
        created_at: "2024-06-01T12:00:00Z".to_string(),
    }
}

#[test]
fn access_rules() {
    assert!(book(1, false).can_read(1));
    assert!(!book(1, false).can_read(2));
    assert!(book(1, true).can_read(2));
    assert!(book(1, true).can_modify(1));
    assert!(!book(1, true).can_modify(2));
}

#[test]
fn book_list_item_defaults() {
    let b = book(1, false);
    let item = build_book_list_item(&b, None, None, None);
    assert_eq!(item.book_id, 5);
    assert_eq!(item.title, "旧日的故事");
    assert_eq!(item.position, 0);
    assert_eq!(item.reading_time, 0);
    assert_eq!(item.last_read_at, None);

    let item = build_book_list_item(&b, Some(42), Some(600), Some(1_000_000));
    assert_eq!(item.position, 42);
    assert_eq!(item.reading_time, 600);
    assert_eq!(item.last_read_at, Some(1_000_000));
}

#[test]
fn book_detail_carries_chapters() {
    let b = book(1, true);
    let chapters = vec![
        ChapterResponse { chapter_id: 1, title: "旧日的故事".to_string(), position: 0 },
        ChapterResponse { chapter_id: 2, title: "第一章".to_string(), position: 1 },
    ];
    let d = build_book_detail(&b, chapters, 7, 30, Some(99));
    assert_eq!(d.book_id, 5);
    assert_eq!(d.author.as_deref(), Some("佚名"));
    assert_eq!(d.position, 7);
    assert_eq!(d.reading_time, 30);
    assert_eq!(d.last_read_at, Some(99));
    assert_eq!(d.chapters.len(), 2);
    assert_eq!(d.chapters[1].position, 1);
}

#[test]
fn user_info_view() {
    let u = User {
        id: 3,
        username: "reader".to_string(),
        password_hash: "stored-hash".to_string(),
        created_at: "2024-01-01T00:00:00Z".to_string(),
        total_reading_time: 1234,
    };
    let info = build_user_info(&u, 6);
    assert_eq!(info.user_id, 3);
    assert_eq!(info.username, "reader");
    assert_eq!(info.total_reading_time, 1234);
    assert_eq!(info.book_count, 6);
}

#[test]
fn update_request_change_detection() {
    let empty = UpdateBookRequest { title: None, author: None, is_public: None };
    assert!(!update_has_changes(&empty));
    let some = UpdateBookRequest { title: None, author: None, is_public: Some(true) };
    assert!(update_has_changes(&some));
}

#[test]
fn decimal_rendering() {
    assert_eq!(i64_to_string(0), "0");
    assert_eq!(i64_to_string(7), "7");
    assert_eq!(i64_to_string(123456789), "123456789");
    assert_eq!(i64_to_string(-45), "-45");
    assert_eq!(i64_to_string(i64::MAX), "9223372036854775807");
    assert_eq!(i64_to_string(i64::MIN), "-9223372036854775808");
}

#[test]
fn claims_for_sessions() {
    let c = Claims::new_user(42, 1_000, 3_600);
    assert_eq!(c.sub, "42");
    assert_eq!(c.iat, 1_000);
    assert_eq!(c.exp, 4_600);
    assert_eq!(c.role, "user");
    let a = Claims::new_admin(1, 2_000, 600);
    assert_eq!(a.sub, "1");
    assert_eq!(a.exp, 2_600);
    assert_eq!(a.role, "admin");
}

#[test]
fn settings_default_requires_invite() {
    let d = settings_or_default(None);
    assert_eq!(d.id, 1);
    assert!(d.invite_code_required);
    let kept = settings_or_default(Some(Settings { id: 1, invite_code_required: false }));
    assert!(!kept.invite_code_required);
}

#[test]
fn random_count_clamped() {
    assert_eq!(random_count(&RandomPublicParams { count: None }), 1);
    assert_eq!(random_count(&RandomPublicParams { count: Some(0) }), 1);
    assert_eq!(random_count(&RandomPublicParams { count: Some(5) }), 5);
    assert_eq!(random_count(&RandomPublicParams { count: Some(99) }), 10);
}
