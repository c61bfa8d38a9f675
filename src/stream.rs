//! Serving one client: reading the first progress message of a job, planning
//! the reply for a complete file, and tailing a file that is still growing.
use vstd::prelude::*;
use crate::header::range_fits;

verus! {

/// Most bytes that one file-to-socket transfer call is asked to move.
pub const MAX_SENDFILE_COUNT: u64 = 0x7fff_f000;

/// Pause between two looks at a growing file that brought no new bytes, in
/// microseconds.
pub const TAIL_POLL_INTERVAL_MICROS: u64 = 500;

/// A message that a download worker sends to the subscribers of its job.
#[derive(Debug, Clone, Copy, PartialEq, Eq, Structural)]
pub enum Progress {
    /// The number of bytes still to come from the resume offset on.
    JobSize(u64),
    /// The mirror does not have the object.
    Unavailable,
    /// The mirror refused the request.
    OrderError,
    Completed,
    Failed,
}

/// What one wait on a subscriber channel brought.
#[derive(Debug, Clone, Copy, PartialEq, Eq, Structural)]
pub enum Received {
    Message(Progress),
    TimedOut,
    Disconnected,
}

/// Why no size came before the first byte.
#[derive(Debug, Clone, Copy, PartialEq, Eq, Structural)]
pub enum ContentLengthError {
    Unavailable,
    OrderError,
    /// The channel closed or stayed silent, or the job ended without a size.
    TransmissionError,
}

pub open spec fn content_length_spec(m: Received) -> Result<u64, ContentLengthError> {
    match m {
        Received::Message(Progress::JobSize(n)) => Ok(n),
        Received::Message(Progress::Unavailable) => Err(ContentLengthError::Unavailable),
        Received::Message(Progress::OrderError) => Err(ContentLengthError::OrderError),
        _ => Err(ContentLengthError::TransmissionError),
    }
}

/// Reads the first thing a subscriber received: the size, or why there is none.
pub fn receive_content_length(m: Received) -> (r: Result<u64, ContentLengthError>)
    ensures
        r == content_length_spec(m),
{
    match m {
        Received::Message(Progress::JobSize(n)) => Ok(n),
        Received::Message(Progress::Unavailable) => Err(ContentLengthError::Unavailable),
        Received::Message(Progress::OrderError) => Err(ContentLengthError::OrderError),
        _ => Err(ContentLengthError::TransmissionError),
    }
}

pub open spec fn error_status_spec(e: ContentLengthError) -> u16 {
    match e {
        ContentLengthError::Unavailable => 404,
        ContentLengthError::OrderError => 400,
        ContentLengthError::TransmissionError => 500,
    }
}

/// The status of the reply that reports `e` to the client.
pub fn error_status(e: ContentLengthError) -> (r: u16)
    ensures
        r == error_status_spec(e),
{
    match e {
        ContentLengthError::Unavailable => 404,
        ContentLengthError::OrderError => 400,
        ContentLengthError::TransmissionError => 500,
    }
}

/// The reply to a request for bytes `[start, end)` of a file: a full reply
/// (200) or, when the request resumes, a partial one (206).
#[derive(Debug, Clone, Copy, PartialEq, Eq, Structural)]
pub struct ReplyPlan {
    pub resume_from: Option<u64>,
    pub content_length: u64,
    pub start: u64,
    pub end: u64,
}

impl ReplyPlan {
    pub open spec fn status(self) -> u16 {
        if self.resume_from is Some {
            206
        } else {
            200
        }
    }
}

pub open spec fn resume_offset(resume_from: Option<u64>) -> u64 {
    match resume_from {
        Some(r) => r,
        None => 0,
    }
}

/// The plan for serving a complete file of `filesize` bytes, when there is one.
pub open spec fn complete_plan_spec(filesize: u64, resume_from: Option<u64>) -> Option<ReplyPlan> {
    let r = resume_offset(resume_from);
    if r <= filesize && range_fits((filesize - r) as u64, resume_from) {
        Some(
            ReplyPlan {
                resume_from,
                content_length: (filesize - r) as u64,
                start: r,
                end: filesize,
            },
        )
    } else {
        None
    }
}

/// Plans the reply for a complete file of `filesize` bytes; `None` when the
/// resume offset lies past the end, or when a partial reply would cover no
/// byte at all.
pub fn plan_complete_reply(filesize: u64, resume_from: Option<u64>) -> (r: Option<ReplyPlan>)
    ensures
        r == complete_plan_spec(filesize, resume_from),
{
    let r = match resume_from {
        Some(r) => r,
        None => 0,
    };
    if r > filesize {
        return None;
    }
    let content_length = filesize - r;
    if resume_from.is_some() && filesize == 0 {
        return None;
    }
    Some(ReplyPlan { resume_from, content_length, start: r, end: filesize })
}

/// A client that tails a file while a worker appends to it: bytes before
/// `sent` went out, the reply ends at `end`.
#[derive(Debug, Clone, Copy, PartialEq, Eq, Structural)]
pub struct GrowingStream {
    pub sent: u64,
    pub end: u64,
}

/// What a tailing client does next.
#[derive(Debug, Clone, Copy, PartialEq, Eq, Structural)]
pub enum TailAction {
    /// Transfer bytes `[from, to)` of the file.
    Send { from: u64, to: u64 },
    /// No new bytes yet: pause, then look again.
    Wait,
    Finished,
}

pub open spec fn min_u64(a: u64, b: u64) -> u64 {
    if a <= b {
        a
    } else {
        b
    }
}

impl GrowingStream {
    pub open spec fn wf(self) -> bool {
        self.sent <= self.end
    }

    /// Starts a reply of `content_length` bytes from offset `resume_from` on.
    pub fn new(content_length: u64, resume_from: Option<u64>) -> (r: GrowingStream)
        requires
            content_length + resume_offset(resume_from) <= u64::MAX,
        ensures
            r.wf(),
            r.sent == resume_offset(resume_from),
            r.end == content_length + resume_offset(resume_from),
    {
        let r = match resume_from {
            Some(r) => r,
            None => 0,
        };
        GrowingStream { sent: r, end: content_length + r }
    }

    /// Decides the next step, given how many bytes the file holds now.
    pub fn next_action(&self, on_disk: u64) -> (r: TailAction)
        requires
            self.wf(),
        ensures
            self.sent == self.end ==> r == TailAction::Finished,
            self.sent < self.end && on_disk > self.sent ==> r == (TailAction::Send {
                from: self.sent,
                to: min_u64(on_disk, self.end),
            }),
            self.sent < self.end && on_disk <= self.sent ==> r == TailAction::Wait,
    {
        if self.sent >= self.end {
            TailAction::Finished
        } else if on_disk > self.sent {
            let to = if on_disk <= self.end {
                on_disk
            } else {
                self.end
            };
            TailAction::Send { from: self.sent, to }
        } else {
            TailAction::Wait
        }
    }

    /// Records that the bytes before `reached` went out.
    pub fn advance(&mut self, reached: u64)
        requires
            old(self).wf(),
            old(self).sent <= reached <= old(self).end,
        ensures
            final(self).wf(),
            final(self).sent == reached,
            final(self).end == old(self).end,
    {
        self.sent = reached;
    }
}

/// How many bytes the next transfer call is asked to move, to get from
/// `offset` to `end`.
pub fn transfer_count(offset: u64, end: u64) -> (r: u64)
    requires
        offset < end,
    ensures
        r == min_u64((end - offset) as u64, MAX_SENDFILE_COUNT),
        0 < r <= MAX_SENDFILE_COUNT,
{
    let left = end - offset;
    if left <= MAX_SENDFILE_COUNT {
        left
    } else {
        MAX_SENDFILE_COUNT
    }
}

} // verus!
