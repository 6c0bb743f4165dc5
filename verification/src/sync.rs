//! Reading-position reconciliation: merges periodic heartbeat reports
//! from possibly multiple devices into a single authoritative position
//! and cumulative reading-time counter.
//!
//! The protocol is a per-(user, book) state machine with two states.  A
//! first heartbeat creates the progress row.  Afterwards the device that
//! last reported owns the position: a report from another device changes
//! nothing and is answered with the stored state (`synced` false), telling
//! that client to adopt the server's position.  A report from the owning
//! device always overwrites the position (re-reading backward is legal)
//! and accrues reading time only when the gap since the previous report is
//! strictly between zero and thirty seconds — the cadence window that
//! keeps backgrounded apps and skewed clocks from inflating the counter.
//! Reading time never decreases.

use vstd::prelude::*;

use crate::errors::AppError;
use crate::models::Book;
use crate::models::can_read_spec;

verus! {

/// One user's progress in one book, as persistence stores it.  The
/// `last_read_at` timestamp is epoch seconds.
#[derive(Debug)]
pub struct ReadingProgress {
    pub id: i64,
    pub user_id: i64,
    pub book_id: i64,
    pub position: i64,
    pub reading_time: i64,
    pub last_read_at: Option<i64>,
    pub last_device_id: Option<String>,
}

/// A heartbeat report from a reading client.
pub struct HeartbeatRequest {
    pub book_id: i64,
    pub position: i64,
    pub device_id: String,
}

/// The answer to a heartbeat: when `synced` is false another device is
/// authoritative and the client should adopt the returned state.
pub struct HeartbeatResponse {
    pub synced: bool,
    pub position: i64,
    pub reading_time: i64,
}

/// What one heartbeat decided: the row to write back (nothing, when the
/// report came from a non-owning device), the answer to the client, and
/// the seconds to add to the user's lifetime reading-time counter.
pub struct HeartbeatOutcome {
    pub updated: Option<ReadingProgress>,
    pub response: HeartbeatResponse,
    pub user_time_delta: i64,
}

impl ReadingProgress {
    /// Positions and accumulated time are never negative.
    pub open spec fn wf(self) -> bool {
        self.position >= 0 && self.reading_time >= 0
    }
}

/// Whether the report comes from the device that owns the position.
pub open spec fn same_device(p: ReadingProgress, device: Seq<char>) -> bool {
    match p.last_device_id {
        Some(d) => d@ == device,
        None => false,
    }
}

/// Seconds of reading time a same-device report accrues: the gap since
/// the previous report, counted only when strictly between zero and
/// thirty seconds.
pub open spec fn accrual(last_read_at: Option<i64>, now: i64) -> int {
    match last_read_at {
        Some(last) => {
            if 0 < now - last < 30 {
                now - last
            } else {
                0
            }
        },
        None => 0,
    }
}

/// The full behaviour of one heartbeat against an existing state.
pub open spec fn heartbeat_post(
    existing: Option<ReadingProgress>,
    user_id: i64,
    book_id: i64,
    position: i64,
    device: Seq<char>,
    now: i64,
    o: HeartbeatOutcome,
) -> bool {
    match existing {
        None => {
            &&& o.updated matches Some(u) && {
                &&& u.user_id == user_id
                &&& u.book_id == book_id
                &&& u.position == position
                &&& u.reading_time == 0
                &&& u.last_read_at == Some(now)
                &&& u.last_device_id matches Some(d) && d@ == device
            }
            &&& o.response == (HeartbeatResponse { synced: true, position, reading_time: 0 })
            &&& o.user_time_delta == 0
        },
        Some(p) => {
            if same_device(p, device) {
                &&& o.updated matches Some(u) && {
                    &&& u.id == p.id
                    &&& u.user_id == p.user_id
                    &&& u.book_id == p.book_id
                    &&& u.position == position
                    &&& u.reading_time == p.reading_time + accrual(p.last_read_at, now)
                    &&& u.last_read_at == Some(now)
                    &&& u.last_device_id matches Some(d) && d@ == device
                }
                &&& o.response.synced == true
                &&& o.response.position == position
                &&& o.response.reading_time == p.reading_time + accrual(p.last_read_at, now)
                &&& o.user_time_delta == accrual(p.last_read_at, now)
            } else {
                &&& o.updated is None
                &&& o.response == (HeartbeatResponse {
                    synced: false,
                    position: p.position,
                    reading_time: p.reading_time,
                })
                &&& o.user_time_delta == 0
            }
        },
    }
}

/// A report from a device other than the owning one changes nothing: no
/// row is written back, nothing is added to the lifetime counter, and
/// the stored state is only echoed to the client.
pub proof fn lemma_foreign_device_changes_nothing(
    existing: Option<ReadingProgress>,
    user_id: i64,
    book_id: i64,
    position: i64,
    device: Seq<char>,
    now: i64,
    o: HeartbeatOutcome,
)
    requires
        existing matches Some(p) && !same_device(p, device),
        heartbeat_post(existing, user_id, book_id, position, device, now, o),
    ensures
        o.updated is None,
        o.user_time_delta == 0,
        existing matches Some(p) ==> o.response == (HeartbeatResponse {
            synced: false,
            position: p.position,
            reading_time: p.reading_time,
        }),
{
}

/// Apply one heartbeat to the stored progress of a (user, book) pair.
/// `now` is the server clock in epoch seconds.
pub fn apply_heartbeat(
    existing: Option<ReadingProgress>,
    user_id: i64,
    book_id: i64,
    req: &HeartbeatRequest,
    now: i64,
) -> (o: HeartbeatOutcome)
    requires
        req.position >= 0,
        existing matches Some(p) ==> p.wf() && (same_device(p, req.device_id@)
            ==> p.reading_time + 30 <= i64::MAX),
    ensures
        heartbeat_post(existing, user_id, book_id, req.position, req.device_id@, now, o),
        o.updated matches Some(u) ==> u.wf(),
        existing matches Some(p) ==> (o.updated matches Some(u) ==> u.reading_time
            >= p.reading_time),
{
    match existing {
        None => {
            let row = ReadingProgress {
                id: 0,
                user_id,
                book_id,
                position: req.position,
                reading_time: 0,
                last_read_at: Some(now),
                last_device_id: Some(req.device_id.clone()),
            };
            HeartbeatOutcome {
                updated: Some(row),
                response: HeartbeatResponse {
                    synced: true,
                    position: req.position,
                    reading_time: 0,
                },
                user_time_delta: 0,
            }
        },
        Some(p) => {
            let is_same: bool = match &p.last_device_id {
                Some(d) => *d == req.device_id,
                None => false,
            };
            if !is_same {
                let response = HeartbeatResponse {
                    synced: false,
                    position: p.position,
                    reading_time: p.reading_time,
                };
                HeartbeatOutcome { updated: None, response, user_time_delta: 0 }
            } else {
                let delta: i64 = match p.last_read_at {
                    Some(last) => {
                        let gap: i128 = now as i128 - last as i128;
                        if 0 < gap && gap < 30 {
                            gap as i64
                        } else {
                            0
                        }
                    },
                    None => 0,
                };
                let new_time = p.reading_time + delta;
                let row = ReadingProgress {
                    id: p.id,
                    user_id: p.user_id,
                    book_id: p.book_id,
                    position: req.position,
                    reading_time: new_time,
                    last_read_at: Some(now),
                    last_device_id: Some(req.device_id.clone()),
                };
                HeartbeatOutcome {
                    updated: Some(row),
                    response: HeartbeatResponse {
                        synced: true,
                        position: req.position,
                        reading_time: new_time,
                    },
                    user_time_delta: delta,
                }
            }
        },
    }
}

/// Decide a whole heartbeat call: the referenced book must exist and be
/// readable by the caller; then the report is applied to the stored
/// progress.
pub fn heartbeat_decision(
    book: Option<&Book>,
    viewer_id: i64,
    existing: Option<ReadingProgress>,
    req: &HeartbeatRequest,
    now: i64,
) -> (r: Result<HeartbeatOutcome, AppError>)
    requires
        req.position >= 0,
        existing matches Some(p) ==> p.wf() && (same_device(p, req.device_id@)
            ==> p.reading_time + 30 <= i64::MAX),
    ensures
        r is Ok <==> (book matches Some(b) && can_read_spec(*b, viewer_id)),
        book is None ==> (r matches Err(e) && e is NotFound),
        (book matches Some(b) && !can_read_spec(*b, viewer_id)) ==> (r matches Err(e)
            && e is Forbidden),
        r matches Ok(o) ==> heartbeat_post(
            existing,
            viewer_id,
            req.book_id,
            req.position,
            req.device_id@,
            now,
            o,
        ),
        r matches Ok(o) ==> (o.updated matches Some(u) ==> u.wf()),
{
    match book {
        None => Err(AppError::NotFound(String::from_str("书籍不存在"))),
        Some(b) => {
            if !b.can_read(viewer_id) {
                Err(AppError::Forbidden(String::from_str("无权访问该书籍")))
            } else {
                Ok(apply_heartbeat(existing, viewer_id, req.book_id, req, now))
            }
        },
    }
}

/// The progress values a detail view shows, and whether a progress row
/// should be created: a viewer who is not the owner gets a fresh row on
/// first access (position zero, nothing accrued, no owning device yet).
pub fn detail_progress(
    book: &Book,
    viewer_id: i64,
    progress: Option<&ReadingProgress>,
) -> (r: (i64, i64, Option<i64>, bool))
    ensures
        progress matches Some(p) ==> r == (p.position, p.reading_time, p.last_read_at, false),
        progress is None ==> r == (0i64, 0i64, Option::<i64>::None, book.user_id != viewer_id),
{
    match progress {
        Some(p) => (p.position, p.reading_time, p.last_read_at, false),
        None => (0, 0, None, book.user_id != viewer_id),
    }
}

} // verus!
