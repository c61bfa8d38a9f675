//! Properties that relate the scheduler's operations to each other.
use vstd::prelude::*;
use crate::cache::{CacheState, attribute_size, cache_state};
use crate::decimal::{decimal, decimal_bytes, lemma_decimal_bytes_read_back};
use crate::header::header_text;
use crate::registry::{JobRegistry, ScheduleOutcome, record_size_spec, schedule_spec};
use crate::stream::{Progress, Received, ReplyPlan, complete_plan_spec, content_length_spec};

verus! {

/// No two active jobs fetch the same path.
pub proof fn lemma_one_job_per_path(reg: &JobRegistry)
    requires
        reg.wf(),
    ensures
        forall|i: int, j: int|
            0 <= i < reg.jobs@.len() && 0 <= j < reg.jobs@.len() && #[trigger] reg.jobs@[i].path@
                == #[trigger] reg.jobs@[j].path@ ==> i == j,
{
    assert forall|i: int, j: int|
        0 <= i < reg.jobs@.len() && 0 <= j < reg.jobs@.len() && #[trigger] reg.jobs@[i].path@
            == #[trigger] reg.jobs@[j].path@ implies i == j by {
        if i < j {
            assert(reg.jobs@[i].path@ != reg.jobs@[j].path@);
        } else if j < i {
            assert(reg.jobs@[j].path@ != reg.jobs@[i].path@);
        }
    }
}

/// Two requests for a path that no job fetches and that is neither complete
/// nor uncacheable: the first registers the one job, the second attaches to it.
pub proof fn lemma_requests_coalesce(m: Map<Seq<char>, Option<u64>>, path: Seq<char>)
    requires
        !m.contains_key(path),
    ensures
        schedule_spec(m, path, false, false).1 == ScheduleOutcome::Scheduled,
        schedule_spec(schedule_spec(m, path, false, false).0, path, false, false).1
            is AlreadyInProgress,
        schedule_spec(schedule_spec(m, path, false, false).0, path, false, false).0
            == schedule_spec(m, path, false, false).0,
{
}

/// The registry after `n` requests for `path` in a row, none of them for a
/// complete or uncacheable file, and how many of them registered a new job.
pub open spec fn schedule_repeated(m: Map<Seq<char>, Option<u64>>, path: Seq<char>, n: nat) -> (
    Map<Seq<char>, Option<u64>>,
    nat,
)
    decreases n,
{
    if n == 0 {
        (m, 0)
    } else {
        let (m1, c) = schedule_repeated(m, path, (n - 1) as nat);
        let (m2, o) = schedule_spec(m1, path, false, false);
        (m2, if o == ScheduleOutcome::Scheduled {
            c + 1
        } else {
            c
        })
    }
}

/// Any number of requests for one path, with no job retired between them,
/// start at most one download: exactly one when no job fetched the path
/// before, none when one did.
pub proof fn lemma_many_requests_one_download(m: Map<Seq<char>, Option<u64>>, path: Seq<char>, n: nat)
    requires
        n >= 1,
    ensures
        schedule_repeated(m, path, n).1 == (if m.contains_key(path) {
            0nat
        } else {
            1nat
        }),
        schedule_repeated(m, path, n).0.contains_key(path),
    decreases n,
{
    let prev = schedule_repeated(m, path, (n - 1) as nat);
    if n > 1 {
        lemma_many_requests_one_download(m, path, (n - 1) as nat);
        assert(schedule_spec(prev.0, path, false, false).1 != ScheduleOutcome::Scheduled);
    } else {
        assert(prev == (m, 0nat));
    }
}

/// A subscriber learns the size before any byte: a reply is streamed only
/// when the first message is a size, and a subscriber that attaches after the
/// worker announced its size is handed that size.
pub proof fn lemma_size_before_bytes(m: Received, reg: Map<Seq<char>, Option<u64>>, path: Seq<char>, size: u64)
    ensures
        content_length_spec(m) is Ok <==> m is Message && m->Message_0 is JobSize,
        content_length_spec(m) matches Ok(n) ==> m == Received::Message(Progress::JobSize(n)),
        reg.contains_key(path) && reg[path] is None ==> schedule_spec(
            record_size_spec(reg, path, size),
            path,
            false,
            false,
        ).1 == ScheduleOutcome::AlreadyInProgress(Some(size)),
{
}

/// A file counts as complete exactly when its length on disk equals the size
/// its attribute records.
pub proof fn lemma_complete_iff_sizes_agree(len: u64, attr: Option<Seq<u8>>)
    ensures
        cache_state(Some(len), attr) is Complete <==> attribute_size(attr) == Some(len),
        cache_state(Some(len), attr) matches CacheState::Complete(s) ==> s == len,
{
}

/// The size attribute that a worker writes reads back as the size it records.
pub proof fn lemma_size_attribute_reads_back(full_size: u64)
    ensures
        attribute_size(Some(decimal_bytes(full_size as nat))) == Some(full_size),
{
    lemma_decimal_bytes_read_back(full_size as nat);
}

/// A download that resumed at `resume_from` and ends as completed, with all
/// `remaining` announced bytes written, leaves a file whose length equals
/// the size its attribute records.
pub proof fn lemma_completed_download_is_complete(resume_from: u64, remaining: u64, written: u64)
    requires
        resume_from + remaining <= u64::MAX,
        (if written == remaining {
            Progress::Completed
        } else {
            Progress::Failed
        }) == Progress::Completed,
    ensures
        cache_state(
            Some((resume_from + written) as u64),
            Some(decimal_bytes((resume_from + remaining) as nat)),
        ) == CacheState::Complete((resume_from + remaining) as u64),
{
    lemma_size_attribute_reads_back((resume_from + remaining) as u64);
}

/// Requests for a complete file leave the registry as it was, so every
/// repetition is served from disk in the same way.
pub proof fn lemma_complete_requests_alike(
    m: Map<Seq<char>, Option<u64>>,
    path: Seq<char>,
    uncacheable: bool,
)
    ensures
        schedule_spec(m, path, true, uncacheable) == (m, ScheduleOutcome::Cached),
        schedule_spec(schedule_spec(m, path, true, uncacheable).0, path, true, uncacheable)
            == schedule_spec(m, path, true, uncacheable),
{
}

/// Resuming a complete file of `size` bytes at `r` gives a 206 reply of the
/// bytes `[r, size)`, whose header announces `size - r` bytes.
pub proof fn lemma_range_round_trip(size: u64, r: u64, date: Seq<char>)
    requires
        r <= size,
        size > 0,
    ensures
        complete_plan_spec(size, Some(r)) == Some(
            ReplyPlan { resume_from: Some(r), content_length: (size - r) as u64, start: r, end: size },
        ),
        complete_plan_spec(size, Some(r))->Some_0.status() == 206,
        header_text("206 Partial Content"@, date, (size - r) as nat, Some(r)).subrange(
            header_text("206 Partial Content"@, date, (size - r) as nat, Some(r)).len() - 4
                - decimal((size - r) as nat).len(),
            header_text("206 Partial Content"@, date, (size - r) as nat, Some(r)).len() - 4,
        ) == decimal((size - r) as nat),
{
    let h = header_text("206 Partial Content"@, date, (size - r) as nat, Some(r));
    let d = decimal((size - r) as nat);
    let pre = "HTTP/1.1 "@ + "206 Partial Content"@ + "\r\nServer: flexo\r\nDate: "@ + date + "\r\n"@
        + crate::header::content_range_line((size - r) as nat, r as nat) + "Content-Length: "@;
    assert(h == pre + d + "\r\n\r\n"@);
    reveal_strlit("\r\n\r\n");
    assert(h.subrange(h.len() - 4 - d.len(), h.len() - 4) =~= d);
}

} // verus!
