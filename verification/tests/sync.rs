use reader_core::errors::AppError;
use reader_core::models::Book;
use reader_core::sync::apply_heartbeat;
use reader_core::sync::detail_progress;
use reader_core::sync::heartbeat_decision;
use reader_core::sync::HeartbeatRequest;
use reader_core::sync::ReadingProgress;

fn request(position: i64, device: &str) -> HeartbeatRequest {
    HeartbeatRequest { book_id: 1, position, device_id: device.to_string() }
}

fn book(owner: i64, is_public: bool) -> Book {
    Book {
        id: 1,
        user_id: owner,
        title: "书".to_string(),
        author: None,
        file_path: "books/1.txt".to_string(),
        is_public,
        created_at: "2024-01-01T00:00:00Z".to_string(),
    }
}

#[test]
fn heartbeat_first_contact() {
    let t0: i64 = 1_000_000;
    let o = apply_heartbeat(None, 1, 1, &request(100, "A"), t0);
    assert!(o.response.synced);
    assert_eq!(o.response.position, 100);
    assert_eq!(o.response.reading_time, 0);
    assert_eq!(o.user_time_delta, 0);
    let row = o.updated.expect("first heartbeat creates a row");
    assert_eq!(row.position, 100);
    assert_eq!(row.reading_time, 0);
    assert_eq!(row.last_read_at, Some(t0));
    assert_eq!(row.last_device_id.as_deref(), Some("A"));
}

#[test]
fn heartbeat_same_device_accrues_time() {
    let t0: i64 = 1_000_000;
    let o1 = apply_heartbeat(None, 1, 1, &request(100, "A"), t0);
    let o2 = apply_heartbeat(o1.updated, 1, 1, &request(150, "A"), t0 + 10);
    assert!(o2.response.synced);
    assert_eq!(o2.response.position, 150);
    assert_eq!(o2.response.reading_time, 10);
    assert_eq!(o2.user_time_delta, 10);
    let row = o2.updated.expect("same-device heartbeat updates the row");
    assert_eq!(row.position, 150);
    assert_eq!(row.reading_time, 10);
    assert_eq!(row.last_read_at, Some(t0 + 10));
}

#[test]
fn heartbeat_foreign_device_changes_nothing() {
    let t0: i64 = 1_000_000;
    let o1 = apply_heartbeat(None, 1, 1, &request(100, "A"), t0);
    let o2 = apply_heartbeat(o1.updated, 1, 1, &request(150, "A"), t0 + 10);
    let stored = o2.updated.unwrap();
    let o3 = apply_heartbeat(Some(stored), 1, 1, &request(500, "B"), t0 + 20);
    assert!(!o3.response.synced);
    assert_eq!(o3.response.position, 150);
    assert_eq!(o3.response.reading_time, 10);
    assert_eq!(o3.user_time_delta, 0);
    assert!(o3.updated.is_none());
}

#[test]
fn heartbeat_long_gap_updates_position_not_time() {
    let t0: i64 = 1_000_000;
    let o1 = apply_heartbeat(None, 1, 1, &request(100, "A"), t0);
    let o2 = apply_heartbeat(o1.updated, 1, 1, &request(150, "A"), t0 + 10);
    let o4 = apply_heartbeat(o2.updated, 1, 1, &request(600, "A"), t0 + 10 + 40);
    assert!(o4.response.synced);
    assert_eq!(o4.response.position, 600);
    assert_eq!(o4.response.reading_time, 10);
    assert_eq!(o4.user_time_delta, 0);
    let row = o4.updated.unwrap();
    assert_eq!(row.position, 600);
    assert_eq!(row.reading_time, 10);
}

#[test]
fn heartbeat_thirty_second_gap_excluded() {
    let t0: i64 = 1_000_000;
    let o1 = apply_heartbeat(None, 1, 1, &request(0, "A"), t0);
    let o2 = apply_heartbeat(o1.updated, 1, 1, &request(10, "A"), t0 + 30);
    assert_eq!(o2.response.reading_time, 0);
    let o3 = apply_heartbeat(o2.updated, 1, 1, &request(20, "A"), t0 + 30 + 29);
    assert_eq!(o3.response.reading_time, 29);
}

#[test]
fn heartbeat_clock_skew_excluded() {
    let t0: i64 = 1_000_000;
    let o1 = apply_heartbeat(None, 1, 1, &request(100, "A"), t0);
    let o2 = apply_heartbeat(o1.updated, 1, 1, &request(90, "A"), t0 - 5);
    assert!(o2.response.synced);
    assert_eq!(o2.response.position, 90);
    assert_eq!(o2.response.reading_time, 0);
}

#[test]
fn heartbeat_rereading_backward_is_legal() {
    let t0: i64 = 1_000_000;
    let o1 = apply_heartbeat(None, 1, 1, &request(500, "A"), t0);
    let o2 = apply_heartbeat(o1.updated, 1, 1, &request(50, "A"), t0 + 5);
    assert!(o2.response.synced);
    assert_eq!(o2.response.position, 50);
}

#[test]
fn heartbeat_duplicate_reports_double_count() {
    // Two identical reports from the same device inside the window each
    // accrue the elapsed time: the cadence window is the only safety net,
    // not a deduplication mechanism.
    let t0: i64 = 1_000_000;
    let o1 = apply_heartbeat(None, 1, 1, &request(100, "A"), t0);
    let o2 = apply_heartbeat(o1.updated, 1, 1, &request(100, "A"), t0 + 5);
    let o3 = apply_heartbeat(o2.updated, 1, 1, &request(100, "A"), t0 + 10);
    assert_eq!(o3.response.reading_time, 10);
}

#[test]
fn heartbeat_decision_missing_book() {
    let r = heartbeat_decision(None, 1, None, &request(100, "A"), 0);
    match r {
        Err(AppError::NotFound(m)) => assert_eq!(m, "书籍不存在"),
        _ => panic!("expected a not-found error"),
    }
}

#[test]
fn heartbeat_decision_private_book_of_other_user() {
    let b = book(2, false);
    let r = heartbeat_decision(Some(&b), 1, None, &request(100, "A"), 0);
    match r {
        Err(AppError::Forbidden(m)) => assert_eq!(m, "无权访问该书籍"),
        _ => panic!("expected a forbidden error"),
    }
}

#[test]
fn heartbeat_decision_public_book_allowed() {
    let b = book(2, true);
    let r = heartbeat_decision(Some(&b), 1, None, &request(100, "A"), 7);
    let o = r.expect("public book is readable");
    assert!(o.response.synced);
    assert_eq!(o.updated.unwrap().user_id, 1);
}

#[test]
fn detail_progress_defaults_and_row_creation() {
    let b = book(2, true);
    let (pos, time, last, create) = detail_progress(&b, 1, None);
    assert_eq!((pos, time, last), (0, 0, None));
    assert!(create, "a non-owner viewing without a row gets one created");

    let own = book(1, false);
    let (_, _, _, create_own) = detail_progress(&own, 1, None);
    assert!(!create_own, "the owner's row is created at upload, not here");

    let row = ReadingProgress {
        id: 9,
        user_id: 1,
        book_id: 1,
        position: 42,
        reading_time: 7,
        last_read_at: Some(123),
        last_device_id: Some("A".to_string()),
    };
    let (p2, t2, l2, c2) = detail_progress(&b, 1, Some(&row));
    assert_eq!((p2, t2, l2, c2), (42, 7, Some(123), false));
}

#[test]
fn heartbeat_foreign_device_ignores_saturated_counter() {
    // A non-owning report never touches the counter, so even a stored
    // time at the top of the range is simply echoed back.
    let row = ReadingProgress {
        id: 1,
        user_id: 1,
        book_id: 1,
        position: 10,
        reading_time: i64::MAX,
        last_read_at: Some(1_000_000),
        last_device_id: Some("A".to_string()),
    };
    let o = apply_heartbeat(Some(row), 1, 1, &request(99, "B"), 1_000_005);
    assert!(!o.response.synced);
    assert_eq!(o.response.position, 10);
    assert_eq!(o.response.reading_time, i64::MAX);
    assert_eq!(o.user_time_delta, 0);
    assert!(o.updated.is_none());
}
