use flexo::cache::{classify, CacheState};
use flexo::request::{is_end_of_head, parse_content_length_header, parse_status_line, parse_range_header, parse_request_line, RequestError};
use flexo::stream::Progress;
use flexo::worker::{content_length_attribute, on_body_end, on_body_failure, on_upstream_reply, UpstreamReply, WorkerStep};

#[test]
fn request_line_gives_the_object_path() {
    assert_eq!(parse_request_line(b"GET /test_0 HTTP/1.1\r\n"), Ok(b"test_0".to_vec()));
    assert_eq!(parse_request_line(b"GET /status HTTP/1.0\n"), Ok(b"status".to_vec()));
    assert_eq!(parse_request_line(b"GET / HTTP/1.1\r\n"), Ok(Vec::new()));
    assert_eq!(parse_request_line(b"GET /a/b.db HTTP/1.1"), Ok(b"a/b.db".to_vec()));
}

#[test]
fn malformed_request_lines_are_refused() {
    let bad = parse_request_line(b"this is not a valid http header\r\n");
    assert_eq!(bad, Err(RequestError::InvalidHeader));
    assert_eq!(parse_request_line(b"GET /x\r\n"), Err(RequestError::InvalidHeader));
    assert_eq!(parse_request_line(b"GET x HTTP/1.1\r\n"), Err(RequestError::InvalidHeader));
    assert_eq!(parse_request_line(b"GET /x HTTP/2.0\r\n"), Err(RequestError::InvalidHeader));
    assert_eq!(parse_request_line(b"GET  /x HTTP/1.1\r\n"), Err(RequestError::InvalidHeader));
    assert_eq!(parse_request_line(b""), Err(RequestError::InvalidHeader));
    let post = parse_request_line(b"POST /x HTTP/1.1\r\n");
    assert_eq!(post, Err(RequestError::UnsupportedHttpMethod));
}

#[test]
fn range_headers() {
    assert_eq!(parse_range_header(b"Range: bytes=100-\r\n"), Some(100));
    assert_eq!(parse_range_header(b"Range: bytes=0-"), Some(0));
    assert_eq!(parse_range_header(b"Range: bytes=-100\r\n"), None);
    assert_eq!(parse_range_header(b"Range: bytes=1-5\r\n"), None);
    assert_eq!(parse_range_header(b"Host: example\r\n"), None);
    assert!(is_end_of_head(b"\r\n"));
    assert!(is_end_of_head(b"\n"));
    assert!(!is_end_of_head(b""));
    assert!(!is_end_of_head(b"Host: x\r\n"));
}

#[test]
fn upstream_replies_decide_the_job() {
    let ok = UpstreamReply::Response { status: 200, content_length: Some(10) };
    assert_eq!(on_upstream_reply(0, 0, 2, ok), WorkerStep::Download { remaining: 10, full_size: 10 });
    let partial = UpstreamReply::Response { status: 206, content_length: Some(6) };
    assert_eq!(on_upstream_reply(4, 0, 2, partial), WorkerStep::Download { remaining: 6, full_size: 10 });
    let missing = UpstreamReply::Response { status: 404, content_length: Some(0) };
    assert_eq!(on_upstream_reply(0, 0, 2, missing), WorkerStep::Finish(Progress::Unavailable));
    let refused = UpstreamReply::Response { status: 403, content_length: None };
    assert_eq!(on_upstream_reply(0, 0, 2, refused), WorkerStep::Finish(Progress::OrderError));
    let sizeless = UpstreamReply::Response { status: 200, content_length: None };
    assert_eq!(on_upstream_reply(0, 0, 2, sizeless), WorkerStep::Finish(Progress::OrderError));
    let huge = UpstreamReply::Response { status: 200, content_length: Some(u64::MAX) };
    assert_eq!(on_upstream_reply(1, 0, 2, huge), WorkerStep::Finish(Progress::OrderError));
}

#[test]
fn failover_is_bounded_by_the_mirror_count() {
    let down = UpstreamReply::Response { status: 503, content_length: None };
    assert_eq!(on_upstream_reply(0, 0, 2, down), WorkerStep::Retry);
    assert_eq!(on_upstream_reply(0, 1, 2, down), WorkerStep::Finish(Progress::Failed));
    assert_eq!(on_upstream_reply(0, 0, 3, UpstreamReply::TransportError), WorkerStep::Retry);
    assert_eq!(on_upstream_reply(0, 2, 3, UpstreamReply::TransportError), WorkerStep::Finish(Progress::Failed));
    assert_eq!(on_body_failure(0, 0, 2), WorkerStep::Retry);
    assert_eq!(on_body_failure(1, 0, 2), WorkerStep::Finish(Progress::Failed));
}

#[test]
fn completed_download_leaves_a_complete_file() {
    assert_eq!(on_body_end(10, 10), Progress::Completed);
    assert_eq!(on_body_end(9, 10), Progress::Failed);
    let attr = content_length_attribute(8589934592);
    assert_eq!(attr, b"8589934592".to_vec());
    assert_eq!(classify(Some(8589934592), &Some(attr)), CacheState::Complete(8589934592));
    assert_eq!(content_length_attribute(0), b"0".to_vec());
}

#[test]
fn response_heads() {
    assert_eq!(parse_status_line(b"HTTP/1.1 200 OK\r\n"), Some(200));
    assert_eq!(parse_status_line(b"HTTP/1.0 404 Not Found\r\n"), Some(404));
    assert_eq!(parse_status_line(b"HTTP/1.1 503\r\n"), Some(503));
    assert_eq!(parse_status_line(b"HTTP/1.1 20x OK\r\n"), None);
    assert_eq!(parse_status_line(b"HTTP/2.0 200 OK\r\n"), None);
    assert_eq!(parse_status_line(b"HTTP/1.1 2000\r\n"), None);
    assert_eq!(parse_content_length_header(b"Content-Length: 1234\r\n"), Some(1234));
    assert_eq!(parse_content_length_header(b"content-length:7\r\n"), Some(7));
    assert_eq!(parse_content_length_header(b"CONTENT-LENGTH:   42\n"), Some(42));
    assert_eq!(parse_content_length_header(b"Content-Length: x\r\n"), None);
    assert_eq!(parse_content_length_header(b"Content-Type: text/plain\r\n"), None);
}
