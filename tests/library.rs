use flexo::cache::{classify, content_length_from_attribute, next_size_poll, CacheState, SizePoll, SIZE_POLL_ATTEMPTS};
use flexo::context::{ends_with, initialize_job_context, is_uncacheable_path, redirect_location, route_request, Route};
use flexo::decimal::{parse_decimal, push_decimal};
use flexo::header::{format_redirect_header, format_reply_header, redirect_header, reply_header_bad_request, reply_header_forbidden, reply_header_internal_server_error, reply_header_not_found, reply_header_partial, reply_header_success};
use flexo::path::valid_path;
use flexo::pool::ProviderPool;
use flexo::registry::{JobRegistry, ScheduleOutcome};
use flexo::scenario::PathGenerator;
use flexo::stream::{error_status, plan_complete_reply, receive_content_length, transfer_count, ContentLengthError, GrowingStream, Progress, Received, ReplyPlan, TailAction, MAX_SENDFILE_COUNT};
use flexo::ProviderSelectionError;

#[test]
fn decimal_text_round_trips() {
    let mut s = String::from("n=");
    push_decimal(&mut s, 0);
    push_decimal(&mut s, 1234567890);
    assert_eq!(s, "n=01234567890");
    let mut m = String::new();
    push_decimal(&mut m, u64::MAX);
    assert_eq!(m, "18446744073709551615");
    assert_eq!(parse_decimal(m.as_bytes()), Some(u64::MAX));
}

#[test]
fn decimal_reading_rejects_bad_text() {
    assert_eq!(parse_decimal(b"42"), Some(42));
    assert_eq!(parse_decimal(b"007"), Some(7));
    assert_eq!(parse_decimal(b""), None);
    assert_eq!(parse_decimal(b"4a2"), None);
    assert_eq!(parse_decimal(b"-1"), None);
    assert_eq!(parse_decimal(b"18446744073709551616"), None);
    assert_eq!(parse_decimal(b"99999999999999999999999"), None);
}

#[test]
fn paths_with_parent_segments_are_invalid() {
    assert!(valid_path("/core/os/x86_64/core.db"));
    assert!(valid_path("extra/a..b/file"));
    assert!(valid_path("a/./b"));
    assert!(valid_path("status"));
    assert!(valid_path(""));
    assert!(!valid_path("/../etc/passwd"));
    assert!(!valid_path("a/.."));
    assert!(!valid_path(".."));
    assert!(!valid_path("./a"));
    assert!(!valid_path("."));
}

#[test]
fn reply_header_exact_text() {
    let h = format_reply_header("200 OK", "Thu, 22 Mar 2012 14:53:18 GMT", 5, None);
    assert_eq!(
        h,
        "HTTP/1.1 200 OK\r\nServer: flexo\r\nDate: Thu, 22 Mar 2012 14:53:18 GMT\r\nContent-Length: 5\r\n\r\n"
    );
    let p = format_reply_header("206 Partial Content", "D", 6, Some(4));
    assert_eq!(
        p,
        "HTTP/1.1 206 Partial Content\r\nServer: flexo\r\nDate: D\r\nContent-Range: bytes 4-9/10\r\nContent-Length: 6\r\n\r\n"
    );
}

#[test]
fn reply_headers_dated_now() {
    let h = reply_header_success(0);
    assert!(h.starts_with("HTTP/1.1 200 OK\r\nServer: flexo\r\nDate: "));
    assert!(h.ends_with("\r\nContent-Length: 0\r\n\r\n"));
    assert!(h.contains("GMT"));
    let p = reply_header_partial(3, 7);
    assert!(p.starts_with("HTTP/1.1 206 Partial Content\r\n"));
    assert!(p.contains("\r\nContent-Range: bytes 7-9/10\r\nContent-Length: 3\r\n\r\n"));
    assert!(reply_header_not_found().starts_with("HTTP/1.1 404 Not Found\r\n"));
    assert!(reply_header_bad_request().starts_with("HTTP/1.1 400 Bad Request\r\n"));
    assert!(reply_header_internal_server_error().starts_with("HTTP/1.1 500 Internal Server Error\r\n"));
    assert!(reply_header_forbidden().starts_with("HTTP/1.1 403 Forbidden\r\n"));
}

#[test]
fn redirect_header_text() {
    let h = format_redirect_header("D", "http://m.example/core.db");
    assert_eq!(
        h,
        "HTTP/1.1 301 Moved Permanently\r\nServer: flexo\r\nDate: D\r\nContent-Length: 0\r\nLocation: http://m.example/core.db\r\n\r\n"
    );
    let now = redirect_header("http://x/y");
    assert!(now.ends_with("\r\nContent-Length: 0\r\nLocation: http://x/y\r\n\r\n"));
    let loc = redirect_location(&String::from("http://m.example/"), "core.db");
    assert_eq!(loc, "http://m.example/core.db");
}

#[test]
fn cache_states() {
    assert_eq!(classify(None, &None), CacheState::Missing);
    assert_eq!(classify(Some(10), &Some(b"10".to_vec())), CacheState::Complete(10));
    assert_eq!(classify(Some(4), &Some(b"10".to_vec())), CacheState::Partial(4));
    assert_eq!(classify(Some(4), &None), CacheState::Sizeless(4));
    assert_eq!(classify(Some(4), &Some(vec![0xff, 0xfe])), CacheState::Sizeless(4));
    assert_eq!(classify(Some(0), &Some(b"0".to_vec())), CacheState::Complete(0));
    assert_eq!(content_length_from_attribute(&Some(b"123".to_vec())), Some(123));
    assert_eq!(content_length_from_attribute(&Some(b"12x".to_vec())), None);
}

#[test]
fn size_polling_gives_up_after_last_attempt() {
    assert_eq!(next_size_poll(0, Some(9)), SizePoll::Found(9));
    assert_eq!(next_size_poll(0, None), SizePoll::Retry);
    assert_eq!(next_size_poll(SIZE_POLL_ATTEMPTS - 2, None), SizePoll::Retry);
    assert_eq!(next_size_poll(SIZE_POLL_ATTEMPTS - 1, None), SizePoll::GiveUp);
}

#[test]
fn first_message_decides_reply() {
    assert_eq!(receive_content_length(Received::Message(Progress::JobSize(77))), Ok(77));
    let un = receive_content_length(Received::Message(Progress::Unavailable));
    assert_eq!(un, Err(ContentLengthError::Unavailable));
    let oe = receive_content_length(Received::Message(Progress::OrderError));
    assert_eq!(oe, Err(ContentLengthError::OrderError));
    let f = receive_content_length(Received::Message(Progress::Failed));
    assert_eq!(f, Err(ContentLengthError::TransmissionError));
    let c = receive_content_length(Received::Message(Progress::Completed));
    assert_eq!(c, Err(ContentLengthError::TransmissionError));
    assert_eq!(receive_content_length(Received::Disconnected), Err(ContentLengthError::TransmissionError));
    assert_eq!(receive_content_length(Received::TimedOut), Err(ContentLengthError::TransmissionError));
    assert_eq!(error_status(ContentLengthError::Unavailable), 404);
    assert_eq!(error_status(ContentLengthError::OrderError), 400);
    assert_eq!(error_status(ContentLengthError::TransmissionError), 500);
}

#[test]
fn complete_file_plans() {
    let full = ReplyPlan { resume_from: None, content_length: 10, start: 0, end: 10 };
    assert_eq!(plan_complete_reply(10, None), Some(full));
    let part = ReplyPlan { resume_from: Some(4), content_length: 6, start: 4, end: 10 };
    assert_eq!(plan_complete_reply(10, Some(4)), Some(part));
    let at_end = ReplyPlan { resume_from: Some(10), content_length: 0, start: 10, end: 10 };
    assert_eq!(plan_complete_reply(10, Some(10)), Some(at_end));
    assert_eq!(plan_complete_reply(10, Some(11)), None);
    assert_eq!(plan_complete_reply(0, Some(0)), None);
    let empty = ReplyPlan { resume_from: None, content_length: 0, start: 0, end: 0 };
    assert_eq!(plan_complete_reply(0, None), Some(empty));
}

#[test]
fn requesting_a_complete_file_twice_gives_the_same_reply() {
    let mut reg = JobRegistry::new();
    let p = String::from("core.db");
    assert_eq!(reg.try_schedule(&p, true, false), ScheduleOutcome::Cached);
    assert_eq!(reg.try_schedule(&p, true, false), ScheduleOutcome::Cached);
    assert!(!reg.is_active(&p));
    assert_eq!(plan_complete_reply(100, Some(30)), plan_complete_reply(100, Some(30)));
}

#[test]
fn range_reply_covers_the_rest_of_the_file() {
    let plan = plan_complete_reply(1000, Some(250)).unwrap();
    assert_eq!(plan.content_length, 750);
    assert_eq!((plan.start, plan.end), (250, 1000));
    let h = format_reply_header("206 Partial Content", "D", plan.content_length, plan.resume_from);
    assert!(h.contains("Content-Range: bytes 250-999/1000\r\nContent-Length: 750\r\n"));
}

#[test]
fn growing_stream_tails_the_file() {
    let mut s = GrowingStream::new(6, Some(4));
    assert_eq!((s.sent, s.end), (4, 10));
    assert_eq!(s.next_action(4), TailAction::Wait);
    assert_eq!(s.next_action(7), TailAction::Send { from: 4, to: 7 });
    s.advance(7);
    assert_eq!(s.next_action(12), TailAction::Send { from: 7, to: 10 });
    s.advance(10);
    assert_eq!(s.next_action(10), TailAction::Finished);
    let fresh = GrowingStream::new(3, None);
    assert_eq!((fresh.sent, fresh.end), (0, 3));
}

#[test]
fn transfers_larger_than_one_call_are_split() {
    let total: u64 = 8192 * 1024 * 1024;
    let mut offset: u64 = 0;
    let mut calls = 0;
    while offset < total {
        let n = transfer_count(offset, total);
        assert!(n <= MAX_SENDFILE_COUNT);
        offset += n;
        calls += 1;
    }
    assert_eq!(offset, total);
    assert_eq!(calls, 5);
    assert_eq!(transfer_count(0, 10), 10);
    assert_eq!(transfer_count(0, MAX_SENDFILE_COUNT * 3), MAX_SENDFILE_COUNT);
}

#[test]
fn pool_rotation() {
    let uris = vec![String::from("a"), String::from("a"), String::from("b"), String::from("c")];
    let mut pool = ProviderPool::new(uris).ok().unwrap();
    assert_eq!(pool.primary(), "a");
    pool.rotate_on_failure(&String::from("a"));
    assert_eq!(pool.current, 2);
    assert_eq!(pool.primary(), "b");
    pool.rotate_on_failure(&String::from("x"));
    assert_eq!(pool.current, 2);
    pool.rotate_on_failure(&String::from("b"));
    assert_eq!(pool.primary(), "c");
    pool.rotate_on_failure(&String::from("c"));
    assert_eq!(pool.primary(), "c");
    assert!(matches!(ProviderPool::new(Vec::new()), Err(ProviderSelectionError::NoProviders)));
}

#[test]
fn concurrent_requests_share_one_job() {
    let mut reg = JobRegistry::new();
    let p = String::from("extra/os/x86_64/pkg.tar.zst");
    assert_eq!(reg.try_schedule(&p, false, false), ScheduleOutcome::Scheduled);
    assert_eq!(reg.try_schedule(&p, false, false), ScheduleOutcome::AlreadyInProgress(None));
    assert_eq!(reg.jobs.len(), 1);
    reg.record_size(&p, 500);
    reg.record_size(&p, 900);
    assert_eq!(reg.try_schedule(&p, false, false), ScheduleOutcome::AlreadyInProgress(Some(500)));
    assert_eq!(reg.subscribe(&p), Some(Some(500)));
    assert_eq!(reg.try_schedule(&p, false, true), ScheduleOutcome::Uncacheable);
    let q = String::from("other");
    assert_eq!(reg.try_schedule(&q, false, false), ScheduleOutcome::Scheduled);
    assert_eq!(reg.jobs.len(), 2);
    reg.retire(&p);
    assert!(!reg.is_active(&p));
    assert!(reg.is_active(&q));
    assert_eq!(reg.subscribe(&p), None);
    assert_eq!(reg.try_schedule(&p, false, false), ScheduleOutcome::Scheduled);
}

#[test]
fn routes_and_uncacheable_paths() {
    assert_eq!(route_request("status"), Route::Status);
    assert_eq!(route_request("core/os/x86_64/core.db"), Route::Object);
    assert_eq!(route_request("../secret"), Route::Forbidden);
    assert!(ends_with("core.db", ".db"));
    assert!(!ends_with("db", ".db"));
    let suffixes = vec![String::from(".db"), String::from(".sig")];
    assert!(is_uncacheable_path("core/os/x86_64/core.db", &suffixes));
    assert!(!is_uncacheable_path("core/os/x86_64/pkg.tar.zst", &suffixes));
    assert!(!is_uncacheable_path("core.db", &Vec::new()));
}

#[test]
fn job_context_schedules_by_cache_state() {
    let providers = vec![String::from("http://a/"), String::from("http://b/")];
    let mut ctx = initialize_job_context(providers, vec![String::from(".db")]).ok().unwrap();
    assert_eq!(ctx.pool.primary(), "http://a/");
    let p = String::from("pkg");
    assert_eq!(ctx.try_schedule(&p, CacheState::Complete(3)), ScheduleOutcome::Cached);
    assert_eq!(ctx.try_schedule(&p, CacheState::Missing), ScheduleOutcome::Scheduled);
    assert_eq!(ctx.try_schedule(&p, CacheState::Partial(1)), ScheduleOutcome::AlreadyInProgress(None));
    let db = String::from("core.db");
    assert_eq!(ctx.try_schedule(&db, CacheState::Missing), ScheduleOutcome::Uncacheable);
    let none = initialize_job_context(Vec::new(), Vec::new());
    assert!(matches!(none, Err(ProviderSelectionError::NoProviders)));
}

#[test]
fn path_generator_counts_up() {
    let mut g = PathGenerator::new(0, 1000);
    assert_eq!(g.generate(), "/test_0");
    assert_eq!(g.generate(), "/test_1");
    let mut h = PathGenerator::new(-2, 0);
    assert_eq!(h.generate(), "/test_-2");
    assert_eq!(h.next, -1);
}

#[test]
fn hundred_requests_start_one_download() {
    let mut reg = JobRegistry::new();
    let p = String::from("core/os/x86_64/linux.pkg.tar.zst");
    let mut scheduled = 0;
    for _ in 0..100 {
        if reg.try_schedule(&p, false, false) == ScheduleOutcome::Scheduled {
            scheduled += 1;
        }
    }
    assert_eq!(scheduled, 1);
    assert_eq!(reg.jobs.len(), 1);
}

#[test]
fn completed_size_attribute_reads_back() {
    let attr = flexo::worker::content_length_attribute(123456789);
    assert_eq!(content_length_from_attribute(&Some(attr)), Some(123456789));
}

#[test]
fn configured_mirrors_become_base_uris() {
    let configured = vec![
        String::from("http://mirror.example/archlinux"),
        String::from("not a uri"),
        String::from("https://other.example/arch/"),
    ];
    let providers = flexo::pool::predefined_providers(&configured);
    assert_eq!(providers, vec!["http://mirror.example/archlinux/", "https://other.example/arch/"]);
    assert!(flexo::pool::predefined_providers(&Vec::new()).is_empty());
}

#[test]
fn selected_mirrors_keep_their_order() {
    let mirrors = vec![String::from("a"), String::from("b/"), String::from("c")];
    let picked = flexo::pool::select_providers(&mirrors, &vec![true, true, false]);
    assert_eq!(picked, vec!["a/", "b/"]);
}
