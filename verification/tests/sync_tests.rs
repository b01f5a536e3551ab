//! The transfer engine's queue discipline and event contents.

use shelfsync::error::AppError;
use shelfsync::models::Book;
use shelfsync::sync::{
    bearer_header, destination_path, download_url, next_downloaded, SyncManager, SyncTask,
    TransferStatus, QUEUE_CAPACITY,
};

fn sample_book(id: i64, title: &str, path: &str) -> Book {
    Book {
        id,
        title: title.to_string(),
        authors: String::new(),
        path: path.to_string(),
        cover_url: None,
        formats: vec!["epub".to_string()],
        series: None,
        series_index: None,
        tags: Vec::new(),
        publisher: None,
    }
}

fn task_for(book: Book) -> SyncTask {
    SyncTask {
        book,
        host_ip: "192.168.1.10".to_string(),
        host_port: 8080,
        token: "tok".to_string(),
        destination_root: "/downloads".to_string(),
    }
}

#[test]
fn test_queue_length_tracks_outstanding_tasks() {
    let mut m = SyncManager::new();
    let tasks: Vec<SyncTask> = (0..3).map(|i| task_for(sample_book(i, "t", "p"))).collect();
    m.add_tasks(&tasks).unwrap();
    assert_eq!(m.queue_len(), 3);
    m.task_finished();
    assert_eq!(m.queue_len(), 2);
    m.task_finished();
    m.task_finished();
    assert_eq!(m.queue_len(), 0);
    // Finishing with nothing queued is harmless.
    m.task_finished();
    assert_eq!(m.queue_len(), 0);
}

#[test]
fn test_queue_is_fifo() {
    let mut m = SyncManager::new();
    let tasks: Vec<SyncTask> = vec![
        task_for(sample_book(1, "first", "a")),
        task_for(sample_book(2, "second", "b")),
    ];
    m.add_tasks(&tasks).unwrap();
    let snap = m.queue_snapshot();
    assert_eq!(snap[0].title, "first");
    assert_eq!(snap[1].title, "second");
    m.task_finished();
    let snap = m.queue_snapshot();
    assert_eq!(snap.len(), 1);
    assert_eq!(snap[0].title, "second");
}

#[test]
fn test_queue_overflow_refused_whole() {
    let mut m = SyncManager::new();
    let over: Vec<SyncTask> =
        (0..(QUEUE_CAPACITY as i64 + 1)).map(|i| task_for(sample_book(i, "t", "p"))).collect();
    let r = m.add_tasks(&over);
    assert!(matches!(r, Err(AppError::Other(ref msg)) if msg == "Transfer queue is full"));
    assert_eq!(m.queue_len(), 0);
    // Exactly the capacity still fits.
    let full: Vec<SyncTask> =
        (0..QUEUE_CAPACITY as i64).map(|i| task_for(sample_book(i, "t", "p"))).collect();
    m.add_tasks(&full).unwrap();
    assert_eq!(m.queue_len(), QUEUE_CAPACITY);
    // And one more does not fit.
    let one = vec![task_for(sample_book(9999, "t", "p"))];
    assert!(m.add_tasks(&one).is_err());
    assert_eq!(m.queue_len(), QUEUE_CAPACITY);
}

#[test]
fn test_progress_event_contents() {
    let mut m = SyncManager::new();
    let tasks = vec![task_for(sample_book(5, "Dune", "herbert/dune"))];
    m.add_tasks(&tasks).unwrap();
    let book = sample_book(5, "Dune", "herbert/dune");
    let ev = m.progress_event(&book, 250, 1000, TransferStatus::Downloading, None);
    assert_eq!(ev.book_id, 5);
    assert_eq!(ev.title, "Dune");
    assert_eq!(ev.downloaded, 250);
    assert_eq!(ev.total, 1000);
    assert_eq!(ev.status, TransferStatus::Downloading);
    assert!(ev.error.is_none());
    assert_eq!(ev.queue_position, 0);
    assert_eq!(ev.queue_total, 1);
}

#[test]
fn test_error_event_contents() {
    let m = SyncManager::new();
    let book = sample_book(5, "Dune", "herbert/dune");
    let ev = m.progress_event(
        &book,
        0,
        0,
        TransferStatus::Error,
        Some("Server returned error".to_string()),
    );
    assert_eq!(ev.status, TransferStatus::Error);
    assert_eq!(ev.error.as_deref(), Some("Server returned error"));
    assert_eq!(ev.queue_total, 0);
}

#[test]
fn test_download_url_exact() {
    let t = task_for(sample_book(7, "B", "p"));
    assert_eq!(download_url(&t), "http://192.168.1.10:8080/api/download/7/best");
}

#[test]
fn test_bearer_header_exact() {
    assert_eq!(bearer_header("abc-123"), "Bearer abc-123");
}

#[test]
fn test_destination_path_exact() {
    let t = task_for(sample_book(7, "B", "herbert/dune"));
    assert_eq!(destination_path(&t), "/downloads/herbert/dune");
}

#[test]
fn test_next_downloaded_saturates() {
    assert_eq!(next_downloaded(0, 10), 10);
    assert_eq!(next_downloaded(100, 28), 128);
    assert_eq!(next_downloaded(u64::MAX, 1), u64::MAX);
    assert_eq!(next_downloaded(u64::MAX - 3, 10), u64::MAX);
}
