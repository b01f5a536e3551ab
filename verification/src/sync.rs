//! The client-side transfer engine's state and decisions: a bounded
//! visible queue, strict FIFO order, and one progress event per state
//! transition of the single worker.
//!
//! The channel, the HTTP client and the filesystem live with the
//! caller; this module decides what to enqueue, what each event says,
//! and when an entry leaves the queue.

use vstd::prelude::*;
use vstd::string::StringExecFns;
use crate::error::AppError;
use crate::models::{Book, BookModel, clone_books};
use crate::text::{spec_decimal, spec_decimal_i64, u64_string, i64_string};

verus! {

/// Capacity of the transfer queue: submissions beyond it fail rather
/// than block the caller.
pub const QUEUE_CAPACITY: usize = 100;

/// One item's download job: the item, where to fetch it from, the
/// bearer token to present, and the local root to store it under.
/// Consumed exactly once by the worker; never mutated after creation.
pub struct SyncTask {
    pub book: Book,
    pub host_ip: String,
    pub host_port: u16,
    pub token: String,
    pub destination_root: String,
}

/// Phase of one task, as reported to observers.
#[derive(Clone, Copy, Debug, PartialEq, Eq, Structural)]
pub enum TransferStatus {
    Downloading,
    Completed,
    Error,
}

/// One progress event. Byte counts stand in for a fraction: observers
/// divide `downloaded` by `total` themselves (`total == 0` means the
/// length is unknown).
pub struct SyncProgress {
    pub book_id: i64,
    pub title: String,
    pub downloaded: u64,
    /// Total length of the transfer in bytes; 0 when unknown.
    pub total: u64,
    pub status: TransferStatus,
    pub error: Option<String>,
    /// Always 0: only the active task reports, and it is at the head.
    pub queue_position: usize,
    /// Length of the visible queue when the event was made.
    pub queue_total: usize,
}

/// The models of the books a task list carries, in order.
pub open spec fn task_books(s: Seq<SyncTask>) -> Seq<BookModel> {
    s.map_values(|t: SyncTask| t.book@)
}

/// The transfer queue: every item pending or in flight, in submission
/// order. An entry is appended on submission and removed when its task
/// finishes, with success or failure, so the length always equals the
/// number of outstanding tasks.
pub struct SyncManager {
    queue: Vec<Book>,
}

impl SyncManager {
    pub closed spec fn view(&self) -> Seq<BookModel> {
        self.queue.deep_view()
    }

    /// An engine with nothing queued.
    pub fn new() -> (r: SyncManager)
        ensures
            r@ == Seq::<BookModel>::empty(),
    {
        SyncManager { queue: Vec::new() }
    }

    /// Number of outstanding (pending or active) tasks.
    pub fn queue_len(&self) -> (r: usize)
        ensures
            r == self@.len(),
    {
        self.queue.len()
    }

    /// The queued items, oldest first, for display.
    pub fn queue_snapshot(&self) -> (r: Vec<Book>)
        ensures
            r.deep_view() == self@,
    {
        clone_books(&self.queue)
    }

    /// Append every submitted task's item to the visible queue, oldest
    /// first — or, when the submission would overflow the queue's
    /// capacity, refuse it whole and change nothing.
    pub fn add_tasks(&mut self, tasks: &Vec<SyncTask>) -> (r: Result<(), AppError>)
        ensures
            r is Ok <==> old(self)@.len() + tasks@.len() <= QUEUE_CAPACITY,
            r is Ok ==> final(self)@ == old(self)@ + task_books(tasks@),
            r is Err ==> final(self)@ == old(self)@ && (r matches Err(e) && e matches
                AppError::Other(m) && m@ == "Transfer queue is full"@),
    {
        if tasks.len() > QUEUE_CAPACITY || self.queue.len() > QUEUE_CAPACITY - tasks.len() {
            return Err(AppError::Other("Transfer queue is full".to_owned()));
        }
        let ghost q0 = self@;
        let n = tasks.len();
        let mut i: usize = 0;
        while i < n
            invariant
                n == tasks@.len(),
                i <= n,
                self@ == q0 + task_books(tasks@.take(i as int)),
            decreases n - i,
        {
            let dup = tasks[i].book.duplicate();
            let ghost qs = self.queue@;
            let ghost qm = self@;
            self.queue.push(dup);
            proof {
                assert forall|k: int| 0 <= k < self@.len() implies self@[k] == qm.push(
                    tasks@[i as int].book@,
                )[k] by {
                    if k < qs.len() {
                        assert(self.queue@[k] == qs[k]);
                    } else {
                        assert(self.queue@[k] == dup);
                    }
                }
                assert(self@ =~= qm.push(tasks@[i as int].book@));
                assert(task_books(tasks@.take(i as int)).push(tasks@[i as int].book@)
                    =~= task_books(tasks@.take(i + 1 as int)));
                assert(self@ =~= q0 + task_books(tasks@.take(i + 1 as int)));
            }
            i += 1;
        }
        proof {
            assert(tasks@.take(n as int) =~= tasks@);
        }
        Ok(())
    }

    /// Drop the finished task's entry from the head of the queue,
    /// whether it completed or failed; an empty queue is left alone.
    pub fn task_finished(&mut self)
        ensures
            old(self)@.len() > 0 ==> final(self)@ == old(self)@.drop_first(),
            old(self)@.len() == 0 ==> final(self)@ == old(self)@,
    {
        if self.queue.len() > 0 {
            self.queue.remove(0);
            proof {
                assert(self@ =~= old(self)@.drop_first());
            }
        }
    }

    /// One progress event for the active task, observed against the
    /// current queue: the active task always reports position 0, and
    /// the total is the visible queue length at the time of the event.
    pub fn progress_event(
        &self,
        book: &Book,
        downloaded: u64,
        total: u64,
        status: TransferStatus,
        error: Option<String>,
    ) -> (r: SyncProgress)
        ensures
            r.book_id == book.id,
            r.title@ == book.title@,
            r.downloaded == downloaded,
            r.total == total,
            r.status == status,
            r.error == error,
            r.queue_position == 0,
            r.queue_total == self@.len(),
    {
        SyncProgress {
            book_id: book.id,
            title: book.title.clone(),
            downloaded,
            total,
            status,
            error,
            queue_position: 0,
            queue_total: self.queue.len(),
        }
    }
}

/// Bytes transferred after one more chunk, saturating at the largest
/// representable count rather than wrapping.
pub fn next_downloaded(downloaded: u64, chunk_len: u64) -> (r: u64)
    ensures
        downloaded + chunk_len <= u64::MAX ==> r == downloaded + chunk_len,
        downloaded + chunk_len > u64::MAX ==> r == u64::MAX,
{
    if chunk_len <= u64::MAX - downloaded {
        downloaded + chunk_len
    } else {
        u64::MAX
    }
}

/// The URL the worker fetches for a task: the remote server's download
/// endpoint for the item, with the format left to the server ("best").
pub fn download_url(task: &SyncTask) -> (r: String)
    ensures
        r@ == "http://"@ + task.host_ip@ + ":"@ + spec_decimal(task.host_port as nat)
            + "/api/download/"@ + spec_decimal_i64(task.book.id as int) + "/best"@,
{
    let mut s = "http://".to_owned();
    s.append(task.host_ip.as_str());
    s.append(":");
    let port = u64_string(task.host_port as u64);
    s.append(port.as_str());
    s.append("/api/download/");
    let id = i64_string(task.book.id);
    s.append(id.as_str());
    s.append("/best");
    s
}

/// The `Authorization` header value presenting a bearer token.
pub fn bearer_header(token: &str) -> (r: String)
    ensures
        r@ == "Bearer "@ + token@,
{
    let mut s = "Bearer ".to_owned();
    s.append(token);
    s
}

/// Where a task's file is stored locally: the item's relative directory
/// under the destination root.
pub fn destination_path(task: &SyncTask) -> (r: String)
    ensures
        r@ == task.destination_root@ + "/"@ + task.book.path@,
{
    let mut s = task.destination_root.clone();
    s.append("/");
    s.append(task.book.path.as_str());
    s
}

} // verus!
