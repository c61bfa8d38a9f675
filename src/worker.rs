//! The decisions of a download worker: what an upstream reply leads to, when
//! to move on to the next mirror, and how the job ends.
use vstd::prelude::*;
use crate::decimal::{decimal_bytes, push_decimal_bytes};
use crate::stream::Progress;

verus! {

/// What one upstream request brought back.
#[derive(Debug, Clone, Copy, PartialEq, Eq, Structural)]
pub enum UpstreamReply {
    /// A response head: its status code and its `Content-Length`, if it had
    /// one that reads as a number.
    Response { status: u16, content_length: Option<u64> },
    /// The connection failed before a response head arrived.
    TransportError,
}

/// What the worker does next.
#[derive(Debug, Clone, Copy, PartialEq, Eq, Structural)]
pub enum WorkerStep {
    /// Record `full_size` as the file's size attribute, announce
    /// `JobSize(remaining)` to the subscribers, and write the body.
    Download { remaining: u64, full_size: u64 },
    /// Move on to the next mirror and ask again.
    Retry,
    /// End the job with this message.
    Finish(Progress),
}

/// A failure that allows failover: the next mirror is asked when the one
/// tried as number `attempt` (from zero) was not the last.
pub open spec fn retry_or_fail(attempt: u64, providers: u64) -> WorkerStep {
    if attempt + 1 < providers {
        WorkerStep::Retry
    } else {
        WorkerStep::Finish(Progress::Failed)
    }
}

pub open spec fn upstream_step_spec(
    resume_from: u64,
    attempt: u64,
    providers: u64,
    reply: UpstreamReply,
) -> WorkerStep {
    match reply {
        UpstreamReply::TransportError => retry_or_fail(attempt, providers),
        UpstreamReply::Response { status, content_length } => {
            if 200 <= status <= 299 {
                match content_length {
                    Some(c) => if c + resume_from <= u64::MAX {
                        WorkerStep::Download { remaining: c, full_size: (c + resume_from) as u64 }
                    } else {
                        WorkerStep::Finish(Progress::OrderError)
                    },
                    None => WorkerStep::Finish(Progress::OrderError),
                }
            } else if status == 404 {
                WorkerStep::Finish(Progress::Unavailable)
            } else if 500 <= status <= 599 {
                retry_or_fail(attempt, providers)
            } else {
                WorkerStep::Finish(Progress::OrderError)
            }
        },
    }
}

fn retry_or_fail_exec(attempt: u64, providers: u64) -> (r: WorkerStep)
    requires
        attempt < providers,
    ensures
        r == retry_or_fail(attempt, providers),
{
    if attempt + 1 < providers {
        WorkerStep::Retry
    } else {
        WorkerStep::Finish(Progress::Failed)
    }
}

/// Decides what follows the reply to attempt number `attempt` out of
/// `providers` mirrors, for a download that resumes at `resume_from`: a
/// success announces the size, 404 ends the job as unavailable, a server
/// error or a failed connection moves on to the next mirror while there is
/// one, and any other reply ends the job as refused.
pub fn on_upstream_reply(resume_from: u64, attempt: u64, providers: u64, reply: UpstreamReply) -> (r:
    WorkerStep)
    requires
        attempt < providers,
    ensures
        r == upstream_step_spec(resume_from, attempt, providers, reply),
{
    match reply {
        UpstreamReply::TransportError => retry_or_fail_exec(attempt, providers),
        UpstreamReply::Response { status, content_length } => {
            if 200 <= status && status <= 299 {
                match content_length {
                    Some(c) => if c <= u64::MAX - resume_from {
                        WorkerStep::Download { remaining: c, full_size: c + resume_from }
                    } else {
                        WorkerStep::Finish(Progress::OrderError)
                    },
                    None => WorkerStep::Finish(Progress::OrderError),
                }
            } else if status == 404 {
                WorkerStep::Finish(Progress::Unavailable)
            } else if 500 <= status && status <= 599 {
                retry_or_fail_exec(attempt, providers)
            } else {
                WorkerStep::Finish(Progress::OrderError)
            }
        },
    }
}

pub open spec fn body_failure_spec(written: u64, attempt: u64, providers: u64) -> WorkerStep {
    if written == 0 {
        retry_or_fail(attempt, providers)
    } else {
        WorkerStep::Finish(Progress::Failed)
    }
}

/// Decides what follows a connection that broke while the body came in,
/// after `written` bytes reached the file: once subscribers may be reading,
/// the job fails without failover.
pub fn on_body_failure(written: u64, attempt: u64, providers: u64) -> (r: WorkerStep)
    requires
        attempt < providers,
    ensures
        r == body_failure_spec(written, attempt, providers),
{
    if written == 0 {
        retry_or_fail_exec(attempt, providers)
    } else {
        WorkerStep::Finish(Progress::Failed)
    }
}

/// How a body that ended after `written` of `remaining` bytes ends the job.
pub fn on_body_end(written: u64, remaining: u64) -> (r: Progress)
    ensures
        r == (if written == remaining {
            Progress::Completed
        } else {
            Progress::Failed
        }),
{
    if written == remaining {
        Progress::Completed
    } else {
        Progress::Failed
    }
}

/// The value of the size attribute that records `full_size`.
pub fn content_length_attribute(full_size: u64) -> (r: Vec<u8>)
    ensures
        r@ == decimal_bytes(full_size as nat),
{
    let mut v: Vec<u8> = Vec::new();
    push_decimal_bytes(&mut v, full_size);
    assert(v@ =~= decimal_bytes(full_size as nat));
    v
}

} // verus!
