//! End-to-end runs against a live proxy: which requests each run sends,
//! and what the replies must be.
use vstd::prelude::*;
use crate::decimal::{decimal, push_decimal};

verus! {

/// Decimal text of a signed number.
pub open spec fn signed_decimal(n: int) -> Seq<char> {
    if n < 0 {
        "-"@ + decimal((-n) as nat)
    } else {
        decimal(n as nat)
    }
}

/// Hands out the paths `/test_<n>` for `n` from `next` up to, not
/// including, `end`.
pub struct PathGenerator {
    pub next: i32,
    pub end: i32,
}

impl PathGenerator {
    pub fn new(start: i32, end: i32) -> (r: PathGenerator)
        ensures
            r.next == start,
            r.end == end,
    {
        PathGenerator { next: start, end }
    }

    /// The next path of the range.
    pub fn generate(&mut self) -> (r: String)
        requires
            old(self).next < old(self).end,
        ensures
            r@ == "/test_"@ + signed_decimal(old(self).next as int),
            final(self).next == old(self).next + 1,
            final(self).end == old(self).end,
    {
        let n = self.next;
        self.next = n + 1;
        let mut r = String::from_str("/test_");
        if n < 0 {
            r.append("-");
            let m: i64 = n as i64;
            push_decimal(&mut r, (-m) as u64);
        } else {
            push_decimal(&mut r, n as u64);
        }
        assert(r@ =~= "/test_"@ + signed_decimal(n as int));
        r
    }
}

/// Port that the proxies under test listen on.
pub const DEFAULT_PORT: u16 = 7878;

/// Size of the large object that the proxies under test serve.
pub const LARGE_FILE_SIZE: u64 = 8192 * 1024 * 1024;

/// One request of a run: its path, and either a header text of its own or,
/// when `None`, a plain GET header for the path.
pub struct GetRequest {
    pub path: String,
    pub custom_header: Option<String>,
}

/// Sending a header in pieces: `chunk_size` bytes, then a pause.
#[derive(Debug, Clone, Copy, PartialEq, Eq, Structural)]
pub struct ChunkPattern {
    pub chunk_size: usize,
    pub wait_millis: u64,
}

/// Requests sent one after another over one connection to `host`.
pub struct GetRequestTest {
    pub host: String,
    pub port: u16,
    pub requests: Vec<GetRequest>,
    pub timeout_millis: Option<u64>,
    pub chunks: Option<ChunkPattern>,
}

/// What the replies to a run must be: `count` replies, each with `status`
/// and, when given, a payload of `payload_size` bytes.
#[derive(Debug, Clone, Copy, PartialEq, Eq, Structural)]
pub struct Expectation {
    pub count: usize,
    pub status: u16,
    pub payload_size: Option<u64>,
}

/// A run and what its replies must be.
pub struct Check {
    pub test: GetRequestTest,
    pub expect: Expectation,
}

/// What came back for one request.
#[derive(Debug, Clone, Copy, PartialEq, Eq, Structural)]
pub struct Outcome {
    pub status: u16,
    pub payload_size: Option<u64>,
}

pub open spec fn outcome_meets(e: Expectation, o: Outcome) -> bool {
    o.status == e.status && (e.payload_size is Some ==> o.payload_size == e.payload_size)
}

pub open spec fn request_paths(t: GetRequestTest) -> Seq<Seq<char>> {
    t.requests@.map_values(|r: GetRequest| r.path@)
}

pub open spec fn all_auto_generated(t: GetRequestTest) -> bool {
    forall|k: int| 0 <= k < t.requests@.len() ==> (#[trigger] t.requests@[k]).custom_header is None
}

/// Tells whether the replies `results` meet `expect`.
pub fn meets(expect: &Expectation, results: &Vec<Outcome>) -> (r: bool)
    ensures
        r == (results@.len() == expect.count && forall|k: int|
            0 <= k < results@.len() ==> outcome_meets(*expect, #[trigger] results@[k])),
{
    if results.len() != expect.count {
        return false;
    }
    let mut k: usize = 0;
    while k < results.len()
        invariant
            k <= results@.len(),
            forall|j: int| 0 <= j < k ==> outcome_meets(*expect, #[trigger] results@[j]),
        decreases results@.len() - k,
    {
        let o = results[k];
        let size_ok = match expect.payload_size {
            Some(s) => o.payload_size == Some(s),
            None => true,
        };
        if o.status != expect.status || !size_ok {
            return false;
        }
        k = k + 1;
    }
    true
}

fn auto_request(path: String) -> (r: GetRequest)
    ensures
        r.path@ == path@,
        r.custom_header is None,
{
    GetRequest { path, custom_header: None }
}

fn single(host: &str, request: GetRequest, timeout_millis: Option<u64>, chunks: Option<ChunkPattern>) -> (r:
    GetRequestTest)
    ensures
        r.host@ == host@,
        r.port == DEFAULT_PORT,
        r.requests@ == seq![request],
        r.timeout_millis == timeout_millis,
        r.chunks == chunks,
{
    let mut requests: Vec<GetRequest> = Vec::new();
    requests.push(request);
    assert(requests@ =~= seq![request]);
    GetRequestTest { host: String::from_str(host), port: DEFAULT_PORT, requests, timeout_millis, chunks }
}

/// A header that is no HTTP at all gets 400, and the proxy still answers a
/// status probe on a new connection afterwards.
pub fn flexo_test_malformed_header() -> (r: Vec<Check>)
    ensures
        r@.len() == 2,
        r@[0].test.host@ == "flexo-server"@,
        r@[0].test.requests@.len() == 1,
        r@[0].test.requests@[0].custom_header matches Some(h) && h@
            == "this is not a valid http header"@,
        r@[0].expect == (Expectation { count: 1, status: 400, payload_size: None }),
        r@[1].test.host@ == "flexo-server"@,
        request_paths(r@[1].test) == seq!["/status"@],
        all_auto_generated(r@[1].test),
        r@[1].expect == (Expectation { count: 1, status: 200, payload_size: None }),
{
    let malformed = GetRequest {
        path: String::from_str("/"),
        custom_header: Some(String::from_str("this is not a valid http header")),
    };
    let first = Check {
        test: single("flexo-server", malformed, None, None),
        expect: Expectation { count: 1, status: 400, payload_size: None },
    };
    let status = auto_request(String::from_str("/status"));
    let second = Check {
        test: single("flexo-server", status, None, None),
        expect: Expectation { count: 1, status: 200, payload_size: None },
    };
    let mut r: Vec<Check> = Vec::new();
    r.push(first);
    r.push(second);
    proof {
        assert(request_paths(r@[1].test) =~= seq!["/status"@]);
    }
    r
}

/// A header sent three bytes at a time, with pauses, is still read whole.
pub fn flexo_test_partial_header(path_generator: &mut PathGenerator) -> (r: Check)
    requires
        old(path_generator).next < old(path_generator).end,
    ensures
        final(path_generator).next == old(path_generator).next + 1,
        final(path_generator).end == old(path_generator).end,
        r.test.host@ == "flexo-server-slow-primary"@,
        request_paths(r.test) == seq!["/test_"@ + signed_decimal(old(path_generator).next as int)],
        all_auto_generated(r.test),
        r.test.timeout_millis is None,
        r.test.chunks == Some(ChunkPattern { chunk_size: 3, wait_millis: 300 }),
        r.expect == (Expectation { count: 1, status: 200, payload_size: None }),
{
    let request = auto_request(path_generator.generate());
    let pattern = ChunkPattern { chunk_size: 3, wait_millis: 300 };
    let test = single("flexo-server-slow-primary", request, None, Some(pattern));
    proof {
        assert(request_paths(test) =~= seq![request.path@]);
    }
    Check { test, expect: Expectation { count: 1, status: 200, payload_size: None } }
}

fn generated_requests(path_generator: &mut PathGenerator, n: usize) -> (r: Vec<GetRequest>)
    requires
        old(path_generator).next + n <= old(path_generator).end,
    ensures
        final(path_generator).next == old(path_generator).next + n,
        final(path_generator).end == old(path_generator).end,
        r@.len() == n,
        forall|k: int|
            0 <= k < n ==> (#[trigger] r@[k]).path@ == "/test_"@ + signed_decimal(
                old(path_generator).next + k,
            ) && r@[k].custom_header is None,
{
    let mut r: Vec<GetRequest> = Vec::new();
    let mut k: usize = 0;
    while k < n
        invariant
            k <= n,
            r@.len() == k,
            path_generator.next == old(path_generator).next + k,
            path_generator.end == old(path_generator).end,
            old(path_generator).next + n <= old(path_generator).end,
            forall|j: int|
                0 <= j < k ==> (#[trigger] r@[j]).path@ == "/test_"@ + signed_decimal(
                    old(path_generator).next + j,
                ) && r@[j].custom_header is None,
        decreases n - k,
    {
        r.push(auto_request(path_generator.generate()));
        k = k + 1;
    }
    r
}

/// Three requests over one client connection all get 200.
pub fn flexo_test_persistent_connections_c2s(path_generator: &mut PathGenerator) -> (r: Check)
    requires
        old(path_generator).next + 3 <= old(path_generator).end,
    ensures
        final(path_generator).next == old(path_generator).next + 3,
        final(path_generator).end == old(path_generator).end,
        r.test.host@ == "flexo-server-delay"@,
        r.test.requests@.len() == 3,
        forall|k: int|
            0 <= k < 3 ==> (#[trigger] r.test.requests@[k]).path@ == "/test_"@ + signed_decimal(
                old(path_generator).next + k,
            ),
        all_auto_generated(r.test),
        r.test.timeout_millis is None,
        r.expect == (Expectation { count: 3, status: 200, payload_size: None }),
{
    let requests = generated_requests(path_generator, 3);
    let test = GetRequestTest {
        host: String::from_str("flexo-server-delay"),
        port: DEFAULT_PORT,
        requests,
        timeout_millis: None,
        chunks: None,
    };
    Check { test, expect: Expectation { count: 3, status: 200, payload_size: None } }
}

/// A hundred new objects within one second: the proxy must reuse its
/// connection to the mirror.
pub fn flexo_test_persistent_connections_s2s(path_generator: &mut PathGenerator) -> (r: Check)
    requires
        old(path_generator).next + 100 <= old(path_generator).end,
    ensures
        final(path_generator).next == old(path_generator).next + 100,
        final(path_generator).end == old(path_generator).end,
        r.test.host@ == "flexo-server-delay-primary"@,
        r.test.requests@.len() == 100,
        forall|k: int|
            0 <= k < 100 ==> (#[trigger] r.test.requests@[k]).path@ == "/test_"@ + signed_decimal(
                old(path_generator).next + k,
            ),
        all_auto_generated(r.test),
        r.test.timeout_millis == Some(1000u64),
        r.expect == (Expectation { count: 100, status: 200, payload_size: None }),
{
    let requests = generated_requests(path_generator, 100);
    let test = GetRequestTest {
        host: String::from_str("flexo-server-delay-primary"),
        port: DEFAULT_PORT,
        requests,
        timeout_millis: Some(1000),
        chunks: None,
    };
    Check { test, expect: Expectation { count: 100, status: 200, payload_size: None } }
}

/// With a stalling primary mirror, one request still completes within half
/// a second.
pub fn flexo_test_mirror_selection_slow_mirror(path_generator: &mut PathGenerator) -> (r: Check)
    requires
        old(path_generator).next < old(path_generator).end,
    ensures
        final(path_generator).next == old(path_generator).next + 1,
        final(path_generator).end == old(path_generator).end,
        r.test.host@ == "flexo-server-slow-primary"@,
        request_paths(r.test) == seq!["/test_"@ + signed_decimal(old(path_generator).next as int)],
        all_auto_generated(r.test),
        r.test.timeout_millis == Some(500u64),
        r.expect == (Expectation { count: 1, status: 200, payload_size: None }),
{
    let request = auto_request(path_generator.generate());
    let test = single("flexo-server-slow-primary", request, Some(500), None);
    proof {
        assert(request_paths(test) =~= seq![request.path@]);
    }
    Check { test, expect: Expectation { count: 1, status: 200, payload_size: None } }
}

/// The large object arrives whole, past every 2 GiB and 4 GiB limit.
pub fn flexo_test_download_large_file() -> (r: Check)
    ensures
        r.test.host@ == "flexo-server-fast"@,
        request_paths(r.test) == seq!["/zero"@],
        all_auto_generated(r.test),
        r.test.timeout_millis == Some(60_000u64),
        r.expect == (Expectation { count: 1, status: 200, payload_size: Some(LARGE_FILE_SIZE) }),
{
    let request = auto_request(String::from_str("/zero"));
    let test = single("flexo-server-fast", request, Some(60_000), None);
    proof {
        assert(request_paths(test) =~= seq!["/zero"@]);
    }
    Check { test, expect: Expectation { count: 1, status: 200, payload_size: Some(LARGE_FILE_SIZE) } }
}

} // verus!
