//! Decision logic of the download orchestrator.
//!
//! Downloads are submitted to a bounded FIFO queue and executed strictly
//! one at a time, in submission order. Every submission immediately gets
//! a status slot seeded with `InProgress(0)`, so no observer ever sees an
//! uninitialized state; each slot holds only the latest value, and once a
//! terminal value (`Completed`, `Failed` or `Cancelled`) is stored, no
//! further value is ever published for that download.
//!
//! The orchestrator here is the state machine the worker drives: the
//! network and filesystem transfer itself (HTTP connect, directory
//! creation, file writes) happens outside and reports back through the
//! step methods as plain values.

use vstd::prelude::*;
use vstd::string::*;
use vstd::arithmetic::div_mod::{lemma_div_is_ordered, lemma_div_multiples_vanish_fancy};

verus! {

/// The status a download publishes: live progress, or one of the three
/// terminal states after which nothing further is published.
#[derive(Debug, Clone)]
pub enum ModDownloadResult {
    InProgress(u8),
    Completed(String),
    Failed(String),
    Cancelled,
}

/// A terminal status: any value other than `InProgress`.
pub open spec fn is_terminal(r: ModDownloadResult) -> bool {
    !(r is InProgress)
}

/// One submitted download, waiting for the worker.
pub struct QueuedDownload {
    pub mod_id: String,
    pub url: String,
}

/// How many submissions may wait in the queue before submitters are
/// pushed back.
pub const QUEUE_CAPACITY: usize = 100;

/// The progress percentage for `downloaded` of `total` bytes: the
/// mathematical value of `downloaded / total * 100`, rounded half up.
pub open spec fn percent_spec(downloaded: int, total: int) -> int
    recommends
        0 <= downloaded <= total,
        0 < total,
{
    (200 * downloaded + total) / (2 * total)
}

/// Rounding keeps the percentage within 0..=100.
pub proof fn lemma_percent_bounds(downloaded: int, total: int)
    requires
        0 <= downloaded <= total,
        0 < total,
    ensures
        0 <= percent_spec(downloaded, total) <= 100,
{
    lemma_div_multiples_vanish_fancy(0, 0, 2 * total);
    lemma_div_is_ordered(0, 200 * downloaded + total, 2 * total);
    lemma_div_multiples_vanish_fancy(100, total, 2 * total);
    assert(200 * downloaded + total <= 2 * total * 100 + total);
    lemma_div_is_ordered(200 * downloaded + total, 2 * total * 100 + total, 2 * total);
}

/// Progress is monotone in the byte count: publishing never goes
/// backwards within one download.
pub proof fn lemma_percent_monotonic(d1: int, d2: int, total: int)
    requires
        0 <= d1 <= d2,
        0 < total,
    ensures
        percent_spec(d1, total) <= percent_spec(d2, total),
{
    lemma_div_is_ordered(200 * d1 + total, 200 * d2 + total, 2 * total);
}

/// When every byte of a known total has arrived, the published
/// percentage is exactly 100.
pub proof fn lemma_full_progress_is_hundred(total: int)
    requires
        0 < total,
    ensures
        percent_spec(total, total) == 100,
{
    lemma_div_multiples_vanish_fancy(100, total, 2 * total);
    assert(200 * total + total == 2 * total * 100 + total);
}

/// Compute the progress percentage for `downloaded` of `total` bytes.
pub fn percent_of(downloaded: u64, total: u64) -> (r: u8)
    requires
        0 < total,
        downloaded <= total,
    ensures
        r as int == percent_spec(downloaded as int, total as int),
        r <= 100,
{
    proof {
        lemma_percent_bounds(downloaded as int, total as int);
    }
    let p: u128 = (200u128 * (downloaded as u128) + (total as u128)) / (2u128 * (total as u128));
    p as u8
}

/// A position in `s` that starts its final `/`-separated segment: the
/// start of the string or just after the last slash, with no slash
/// after it.
pub open spec fn segment_boundary(s: Seq<char>, k: int) -> bool {
    &&& 0 <= k <= s.len()
    &&& (k == 0 || s[k - 1] == '/')
    &&& forall|j: int| k <= j < s.len() ==> s[j] != '/'
}

/// The destination filename for a response whose URL path is `path`:
/// the final path segment, or `"unknown.zip"` when that segment is
/// empty.
pub fn infer_filename(path: &str) -> (r: String)
    ensures
        exists|k: int|
            #[trigger] segment_boundary(path@, k) && (if k < path@.len() {
                r@ == path@.subrange(k, path@.len() as int)
            } else {
                r@ == "unknown.zip"@
            }),
{
    let n = path.unicode_len();
    let mut k: usize = 0;
    let mut i: usize = 0;
    while i < n
        invariant
            n == path@.len(),
            0 <= k <= i <= n,
            k == 0 || path@[k - 1] == '/',
            forall|j: int| k <= j < i ==> path@[j] != '/',
        decreases n - i,
    {
        if path.get_char(i) == '/' {
            k = i + 1;
        }
        i += 1;
    }
    proof {
        assert(segment_boundary(path@, k as int));
    }
    if k < n {
        path.substring_char(k, n).to_owned()
    } else {
        String::from_str("unknown.zip")
    }
}

/// Join a directory and a filename with a single separator.
pub fn join_path(dir: &str, name: &str) -> (r: String)
    ensures
        r@ == dir@ + "/"@ + name@,
{
    let mut s = String::from_str(dir);
    s.append("/");
    s.append(name);
    s
}

/// The download orchestrator's queue and status board.
///
/// `statuses` has one slot per submission ever made, in submission
/// order; a slot holds only the latest published value. `pending` holds
/// the submissions the worker has not started yet, oldest first. While a
/// download is in flight, `total` is the advertised content length (0
/// when unknown) and `downloaded` the bytes streamed so far.
pub struct Orchestrator {
    pending: Vec<QueuedDownload>,
    statuses: Vec<ModDownloadResult>,
    started: usize,
    in_flight: bool,
    total: u64,
    downloaded: u64,
}

impl Orchestrator {
    /// The submissions the worker has not started yet, oldest first.
    pub closed spec fn pending_q(self) -> Seq<QueuedDownload> {
        self.pending@
    }

    /// The latest published status of every submission, in submission
    /// order.
    pub closed spec fn statuses(self) -> Seq<ModDownloadResult> {
        self.statuses@
    }

    /// How many downloads the worker has started.
    pub closed spec fn started_spec(self) -> int {
        self.started as int
    }

    /// Whether a download is currently in flight.
    pub closed spec fn in_flight_spec(self) -> bool {
        self.in_flight
    }

    /// The advertised total byte count of the in-flight download; 0
    /// when the content length is unknown.
    pub closed spec fn total_spec(self) -> int {
        self.total as int
    }

    /// Bytes streamed so far for the in-flight download.
    pub closed spec fn downloaded_spec(self) -> int {
        self.downloaded as int
    }

    /// The status slot of the in-flight download.
    pub open spec fn current_ticket(self) -> int {
        self.started_spec() - 1
    }

    /// The orchestrator's invariant: every submission has exactly one
    /// status slot; downloads run strictly in submission order, so every
    /// slot before the in-flight one is terminal, the in-flight slot is
    /// live, and every not-yet-started slot still holds the seeded
    /// `InProgress(0)`.
    pub open spec fn wf(self) -> bool {
        &&& self.started_spec() + self.pending_q().len() == self.statuses().len()
        &&& self.in_flight_spec() ==> self.started_spec() >= 1
        &&& self.in_flight_spec() ==> !is_terminal(self.statuses()[self.current_ticket()])
        &&& forall|t: int|
            0 <= t < self.started_spec() - (if self.in_flight_spec() {
                1int
            } else {
                0int
            }) ==> is_terminal(#[trigger] self.statuses()[t])
        &&& forall|t: int| self.started_spec() <= t < self.statuses().len()
            ==> #[trigger] self.statuses()[t] == ModDownloadResult::InProgress(0u8)
    }

    /// A fresh orchestrator: nothing submitted, nothing in flight.
    pub fn new() -> (r: Orchestrator)
        ensures
            r.wf(),
            r.pending_q().len() == 0,
            r.statuses().len() == 0,
            r.started_spec() == 0,
            !r.in_flight_spec(),
    {
        Orchestrator {
            pending: Vec::new(),
            statuses: Vec::new(),
            started: 0,
            in_flight: false,
            total: 0,
            downloaded: 0,
        }
    }

    pub fn pending_count(&self) -> (n: usize)
        ensures
            n == self.pending_q().len(),
    {
        self.pending.len()
    }

    pub fn submitted_count(&self) -> (n: usize)
        ensures
            n == self.statuses().len(),
    {
        self.statuses.len()
    }

    pub fn is_in_flight(&self) -> (b: bool)
        ensures
            b == self.in_flight_spec(),
    {
        self.in_flight
    }

    /// The latest published status of submission `t` — what an observer
    /// of that download's handle sees right now.
    pub fn status_of(&self, t: usize) -> (r: &ModDownloadResult)
        requires
            t < self.statuses().len(),
        ensures
            *r == self.statuses()[t as int],
    {
        &self.statuses[t]
    }

    /// Submit a download. When the queue is at capacity the submission
    /// is refused and the caller must back off and retry (cooperative
    /// backpressure); otherwise the returned ticket indexes a fresh
    /// status slot, already seeded with `InProgress(0)`.
    pub fn try_queue_download(&mut self, mod_id: String, url: String) -> (r: Option<usize>)
        requires
            old(self).wf(),
        ensures
            final(self).wf(),
            match r {
                Some(t) => {
                    &&& old(self).pending_q().len() < QUEUE_CAPACITY
                    &&& t == old(self).statuses().len()
                    &&& final(self).pending_q() == old(self).pending_q().push(
                        (QueuedDownload { mod_id: mod_id, url: url }),
                    )
                    &&& final(self).statuses() == old(self).statuses().push(
                        ModDownloadResult::InProgress(0u8),
                    )
                    &&& final(self).started_spec() == old(self).started_spec()
                    &&& final(self).in_flight_spec() == old(self).in_flight_spec()
                    &&& final(self).total_spec() == old(self).total_spec()
                    &&& final(self).downloaded_spec() == old(self).downloaded_spec()
                },
                None => {
                    &&& old(self).pending_q().len() >= QUEUE_CAPACITY
                    &&& final(self).pending_q() == old(self).pending_q()
                    &&& final(self).statuses() == old(self).statuses()
                    &&& final(self).started_spec() == old(self).started_spec()
                    &&& final(self).in_flight_spec() == old(self).in_flight_spec()
                },
            },
    {
        if self.pending.len() >= QUEUE_CAPACITY {
            return None;
        }
        let t = self.statuses.len();
        self.statuses.push(ModDownloadResult::InProgress(0));
        self.pending.push(QueuedDownload { mod_id, url });
        Some(t)
    }

    /// Take the oldest pending submission and begin working on it. The
    /// returned ticket equals the number of downloads started before it:
    /// downloads are started strictly in submission order.
    pub fn start_next(&mut self) -> (r: Option<(usize, QueuedDownload)>)
        requires
            old(self).wf(),
            !old(self).in_flight_spec(),
        ensures
            final(self).wf(),
            match r {
                Some((t, q)) => {
                    &&& old(self).pending_q().len() > 0
                    &&& q == old(self).pending_q()[0]
                    &&& t == old(self).started_spec()
                    &&& final(self).pending_q() == old(self).pending_q().remove(0)
                    &&& final(self).started_spec() == old(self).started_spec() + 1
                    &&& final(self).in_flight_spec()
                    &&& final(self).current_ticket() == t
                    &&& final(self).statuses() == old(self).statuses()
                    &&& final(self).total_spec() == 0
                    &&& final(self).downloaded_spec() == 0
                },
                None => {
                    &&& old(self).pending_q().len() == 0
                    &&& final(self).pending_q() == old(self).pending_q()
                    &&& final(self).statuses() == old(self).statuses()
                    &&& final(self).started_spec() == old(self).started_spec()
                    &&& !final(self).in_flight_spec()
                },
            },
    {
        if self.pending.len() == 0 {
            return None;
        }
        let q = self.pending.remove(0);
        let t = self.started;
        let submitted = self.statuses.len();
        proof {
            assert(t < submitted);
        }
        self.started = t + 1;
        self.in_flight = true;
        self.total = 0;
        self.downloaded = 0;
        Some((t, q))
    }

    /// Record the connection outcome's advertised content length for the
    /// in-flight download; absent or zero means the length is unknown
    /// and no intermediate progress will be published.
    pub fn connected(&mut self, content_length: Option<u64>)
        requires
            old(self).wf(),
            old(self).in_flight_spec(),
            old(self).downloaded_spec() == 0,
        ensures
            final(self).wf(),
            final(self).total_spec() == (match content_length {
                Some(n) => n as int,
                None => 0,
            }),
            final(self).downloaded_spec() == 0,
            final(self).in_flight_spec(),
            final(self).pending_q() == old(self).pending_q(),
            final(self).statuses() == old(self).statuses(),
            final(self).started_spec() == old(self).started_spec(),
    {
        self.total = match content_length {
            Some(n) => n,
            None => 0,
        };
    }

    /// Account one streamed chunk of `n` bytes for the in-flight
    /// download. When the total length is known, the new percentage is
    /// published to the download's slot and returned; when it is
    /// unknown, nothing is published.
    pub fn chunk_received(&mut self, n: u64) -> (r: Option<u8>)
        requires
            old(self).wf(),
            old(self).in_flight_spec(),
        ensures
            final(self).wf(),
            final(self).in_flight_spec(),
            final(self).pending_q() == old(self).pending_q(),
            final(self).started_spec() == old(self).started_spec(),
            final(self).total_spec() == old(self).total_spec(),
            final(self).downloaded_spec() == (if old(self).downloaded_spec() + n <= u64::MAX {
                old(self).downloaded_spec() + n
            } else {
                u64::MAX as int
            }),
            match r {
                Some(p) => {
                    &&& old(self).total_spec() > 0
                    &&& p as int == percent_spec(
                        (if final(self).downloaded_spec() <= final(self).total_spec() {
                            final(self).downloaded_spec()
                        } else {
                            final(self).total_spec()
                        }),
                        final(self).total_spec(),
                    )
                    &&& p <= 100
                    &&& final(self).statuses() == old(self).statuses().update(
                        old(self).current_ticket(),
                        ModDownloadResult::InProgress(p),
                    )
                },
                None => old(self).total_spec() == 0 && final(self).statuses() == old(
                    self,
                ).statuses(),
            },
    {
        self.downloaded = self.downloaded.saturating_add(n);
        if self.total > 0 {
            let dd = if self.downloaded > self.total {
                self.total
            } else {
                self.downloaded
            };
            let p = percent_of(dd, self.total);
            let t = self.started - 1;
            self.statuses.set(t, ModDownloadResult::InProgress(p));
            Some(p)
        } else {
            None
        }
    }

    /// Publish the terminal `Failed` status for the in-flight download
    /// and make the worker free for the next submission. A failure is
    /// terminal for this one download only: the queue and every other
    /// slot are untouched.
    pub fn download_failed(&mut self, reason: String)
        requires
            old(self).wf(),
            old(self).in_flight_spec(),
        ensures
            final(self).wf(),
            !final(self).in_flight_spec(),
            final(self).pending_q() == old(self).pending_q(),
            final(self).started_spec() == old(self).started_spec(),
            final(self).statuses() == old(self).statuses().update(
                old(self).current_ticket(),
                ModDownloadResult::Failed(reason),
            ),
    {
        let t = self.started - 1;
        self.statuses.set(t, ModDownloadResult::Failed(reason));
        self.in_flight = false;
    }

    /// Publish the terminal `Completed` status, carrying the destination
    /// path, and make the worker free for the next submission.
    pub fn download_completed(&mut self, dest_path: String)
        requires
            old(self).wf(),
            old(self).in_flight_spec(),
        ensures
            final(self).wf(),
            !final(self).in_flight_spec(),
            final(self).pending_q() == old(self).pending_q(),
            final(self).started_spec() == old(self).started_spec(),
            final(self).statuses() == old(self).statuses().update(
                old(self).current_ticket(),
                ModDownloadResult::Completed(dest_path),
            ),
    {
        let t = self.started - 1;
        self.statuses.set(t, ModDownloadResult::Completed(dest_path));
        self.in_flight = false;
    }

    /// Downloads finish in submission order: whenever a download is in
    /// flight, every earlier submission already carries its terminal
    /// status, so terminal states are observed strictly in the order the
    /// downloads were submitted.
    pub proof fn lemma_fifo_terminal_order(self, t: int)
        requires
            self.wf(),
            self.in_flight_spec(),
            0 <= t < self.current_ticket(),
        ensures
            is_terminal(self.statuses()[t]),
    {
    }
}

} // verus!
