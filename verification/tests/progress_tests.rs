//! Last-write-wins behaviour of the reading-progress ledger.

use shelfsync::error::AppError;
use shelfsync::progress::ProgressStore;
use shelfsync::server::ServerState;

#[test]
fn test_upsert_idempotent() {
    let mut store = ProgressStore::new();
    let t: i64 = 1_700_000_000;
    store.upsert(42, "finished".to_string(), t);
    store.upsert(42, "finished".to_string(), t);
    let all = store.read_all();
    assert_eq!(all.len(), 1);
    assert_eq!(all[0].book_id, 42);
    assert_eq!(all[0].status, "finished");
    assert_eq!(all[0].last_updated, t);
    // A strictly older write changes nothing.
    store.upsert(42, "finished".to_string(), t - 1);
    let all = store.read_all();
    assert_eq!(all.len(), 1);
    assert_eq!(all[0].status, "finished");
    assert_eq!(all[0].last_updated, t);
}

#[test]
fn test_stale_status_ignored() {
    let mut store = ProgressStore::new();
    store.upsert(1, "finished".to_string(), 100);
    store.upsert(1, "reading".to_string(), 99);
    let all = store.read_all();
    assert_eq!(all.len(), 1);
    assert_eq!(all[0].status, "finished");
    assert_eq!(all[0].last_updated, 100);
}

#[test]
fn test_newer_write_wins() {
    let mut store = ProgressStore::new();
    store.upsert(1, "reading".to_string(), 100);
    store.upsert(1, "finished".to_string(), 101);
    let all = store.read_all();
    assert_eq!(all.len(), 1);
    assert_eq!(all[0].status, "finished");
    assert_eq!(all[0].last_updated, 101);
}

#[test]
fn test_tie_favors_incoming() {
    let mut store = ProgressStore::new();
    store.upsert(1, "reading".to_string(), 100);
    store.upsert(1, "unread".to_string(), 100);
    let all = store.read_all();
    assert_eq!(all.len(), 1);
    assert_eq!(all[0].status, "unread");
}

#[test]
fn test_records_kept_per_item() {
    let mut store = ProgressStore::new();
    store.upsert(1, "reading".to_string(), 10);
    store.upsert(2, "unread".to_string(), 11);
    store.upsert(3, "finished".to_string(), 12);
    let all = store.read_all();
    assert_eq!(all.len(), 3);
    assert_eq!(all[0].book_id, 1);
    assert_eq!(all[1].book_id, 2);
    assert_eq!(all[2].book_id, 3);
}

#[test]
fn test_read_all_uninitialized_is_empty() {
    let store = ProgressStore::new();
    assert!(store.read_all().is_empty());
}

#[test]
fn test_progress_endpoints_require_authorization() {
    let server = ServerState::new("1234".to_string());
    let mut store = ProgressStore::new();
    let r = server.get_progress(Some(&"Bearer nope".to_string()), &store);
    assert!(matches!(r, Err(AppError::Unauthorized)));
    let w = server.post_progress(None, &mut store, 1, "reading".to_string(), 5);
    assert!(matches!(w, Err(AppError::Unauthorized)));
    assert!(store.read_all().is_empty());
}

#[test]
fn test_progress_endpoints_pass_through() {
    let mut server = ServerState::new("1234".to_string());
    let token = server.check_pin("1234").unwrap();
    let header = format!("Bearer {}", token);
    let mut store = ProgressStore::new();
    server
        .post_progress(Some(&header), &mut store, 9, "reading".to_string(), 50)
        .unwrap();
    let all = server.get_progress(Some(&header), &store).unwrap();
    assert_eq!(all.len(), 1);
    assert_eq!(all[0].book_id, 9);
    assert_eq!(all[0].status, "reading");
    assert_eq!(all[0].last_updated, 50);
}

#[test]
fn test_error_messages_exact() {
    assert_eq!(AppError::Unauthorized.message(), "Unauthorized");
    assert_eq!(AppError::NotFound.message(), "Not found");
    assert_eq!(AppError::Unavailable.message(), "Library path not set");
    assert_eq!(
        AppError::LibraryNotFound("/lib".to_string()).message(),
        "Library not found: /lib"
    );
    assert_eq!(AppError::Database("locked".to_string()).message(), "Database error: locked");
    assert_eq!(AppError::Io("disk".to_string()).message(), "IO error: disk");
    assert_eq!(AppError::Unknown("odd".to_string()).message(), "Unknown error: odd");
    assert_eq!(AppError::Other("misc".to_string()).message(), "Other error: misc");
}

#[test]
fn test_error_from_string() {
    let e = AppError::from("went wrong".to_string());
    assert!(matches!(e, AppError::Unknown(ref m) if m == "went wrong"));
}
