//! The scheduler: the mirror pool, the job registry and the paths that are
//! never cached, and the route each request takes.
use vstd::prelude::*;
use crate::cache::CacheState;
use crate::path::{is_valid_path, valid_path};
use crate::pool::{ProviderPool, ProviderSelectionError};
use crate::registry::{JobRegistry, ScheduleOutcome, schedule_spec};

verus! {

pub open spec fn has_suffix(s: Seq<char>, suffix: Seq<char>) -> bool {
    suffix.len() <= s.len() && s.subrange(s.len() - suffix.len(), s.len() as int) == suffix
}

pub open spec fn matches_any_suffix(s: Seq<char>, suffixes: Seq<String>) -> bool {
    exists|k: int| 0 <= k < suffixes.len() && has_suffix(s, #[trigger] suffixes[k]@)
}

/// Tells whether `s` ends with `suffix`.
pub fn ends_with(s: &str, suffix: &str) -> (r: bool)
    ensures
        r == has_suffix(s@, suffix@),
{
    let n = s.unicode_len();
    let m = suffix.unicode_len();
    if m > n {
        return false;
    }
    let mut k: usize = 0;
    while k < m
        invariant
            n == s@.len(),
            m == suffix@.len(),
            m <= n,
            k <= m,
            forall|j: int| 0 <= j < k ==> s@[n - m + j] == suffix@[j],
        decreases m - k,
    {
        if s.get_char(n - m + k) != suffix.get_char(k) {
            assert(s@.subrange(n - m, n as int)[k as int] != suffix@[k as int]);
            return false;
        }
        k = k + 1;
    }
    assert(s@.subrange(n - m, n as int) =~= suffix@);
    true
}

/// Tells whether `path` ends with one of `suffixes`.
pub fn is_uncacheable_path(path: &str, suffixes: &Vec<String>) -> (r: bool)
    ensures
        r == matches_any_suffix(path@, suffixes@),
{
    let mut k: usize = 0;
    while k < suffixes.len()
        invariant
            k <= suffixes@.len(),
            forall|j: int| 0 <= j < k ==> !has_suffix(path@, #[trigger] suffixes@[j]@),
        decreases suffixes@.len() - k,
    {
        if ends_with(path, suffixes[k].as_str()) {
            return true;
        }
        k = k + 1;
    }
    false
}

/// Where a request goes before any cache lookup.
#[derive(Debug, Clone, Copy, PartialEq, Eq, Structural)]
pub enum Route {
    /// The path holds a parent or current-directory segment: 403.
    Forbidden,
    /// The liveness probe: 200 with an empty body.
    Status,
    /// A cache object.
    Object,
}

pub open spec fn route_spec(path: Seq<char>) -> Route {
    if !is_valid_path(path) {
        Route::Forbidden
    } else if path == "status"@ {
        Route::Status
    } else {
        Route::Object
    }
}

/// Routes a request path, as given without its leading `/`.
pub fn route_request(path: &str) -> (r: Route)
    ensures
        r == route_spec(path@),
{
    if !valid_path(path) {
        return Route::Forbidden;
    }
    let status = String::from_str("status");
    let owned = String::from_str(path);
    if owned == status {
        Route::Status
    } else {
        Route::Object
    }
}

/// The URI that an uncacheable request is redirected to.
pub fn redirect_location(uri: &String, path: &str) -> (r: String)
    ensures
        r@ == uri@ + path@,
{
    let mut r = uri.clone();
    r.append(path);
    r
}

/// Everything the scheduler decides with.
pub struct JobContext {
    pub pool: ProviderPool,
    pub registry: JobRegistry,
    pub uncacheable_suffixes: Vec<String>,
}

impl JobContext {
    pub open spec fn wf(&self) -> bool {
        self.pool.wf() && self.registry.wf()
    }

    /// Decides a request for `path`, whose cache file is in `state`.
    pub fn try_schedule(&mut self, path: &String, state: CacheState) -> (r: ScheduleOutcome)
        requires
            old(self).wf(),
        ensures
            final(self).wf(),
            final(self).pool == old(self).pool,
            final(self).uncacheable_suffixes@ == old(self).uncacheable_suffixes@,
            (final(self).registry@, r) == schedule_spec(
                old(self).registry@,
                path@,
                state is Complete,
                matches_any_suffix(path@, old(self).uncacheable_suffixes@),
            ),
    {
        let complete = match state {
            CacheState::Complete(_) => true,
            _ => false,
        };
        let uncacheable = is_uncacheable_path(path.as_str(), &self.uncacheable_suffixes);
        self.registry.try_schedule(path, complete, uncacheable)
    }
}

/// Sets up the scheduler over the mirrors `providers`, best first; an error
/// when there are none.
pub fn initialize_job_context(providers: Vec<String>, uncacheable_suffixes: Vec<String>) -> (r:
    Result<JobContext, ProviderSelectionError>)
    ensures
        providers@.len() == 0 <==> r == Err::<JobContext, _>(ProviderSelectionError::NoProviders),
        r matches Ok(c) ==> c.wf() && c.pool.uris@ == providers@ && c.pool.current == 0
            && c.registry@ == Map::<Seq<char>, Option<u64>>::empty()
            && c.uncacheable_suffixes@ == uncacheable_suffixes@,
{
    match ProviderPool::new(providers) {
        Err(e) => Err(e),
        Ok(pool) => Ok(JobContext { pool, registry: JobRegistry::new(), uncacheable_suffixes }),
    }
}

} // verus!
