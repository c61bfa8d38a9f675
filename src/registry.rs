//! The job registry: one entry per object that a worker is fetching, so that
//! concurrent requests for one path share a single download.
use vstd::prelude::*;

verus! {

/// One active job: the path it fetches and the size its worker announced,
/// which is replayed to subscribers that attach later.
pub struct JobEntry {
    pub path: String,
    pub last_size: Option<u64>,
}

/// What the scheduler decided for a request.
#[derive(Debug, Clone, Copy, PartialEq, Eq, Structural)]
pub enum ScheduleOutcome {
    /// The object is complete on disk.
    Cached,
    /// The path is never cached: redirect to the mirror.
    Uncacheable,
    /// A worker already fetches the path; the payload is the size it has
    /// announced so far, for the new subscriber to catch up on.
    AlreadyInProgress(Option<u64>),
    /// A new job was registered: the caller starts its worker.
    Scheduled,
}

/// Active jobs, keyed by path. `active` mirrors `jobs` as a map from path to
/// the announced size.
pub struct JobRegistry {
    pub jobs: Vec<JobEntry>,
    pub active: Ghost<Map<Seq<char>, Option<u64>>>,
}

/// The registry and outcome that a request for `path` leads to.
pub open spec fn schedule_spec(
    m: Map<Seq<char>, Option<u64>>,
    path: Seq<char>,
    complete: bool,
    uncacheable: bool,
) -> (Map<Seq<char>, Option<u64>>, ScheduleOutcome) {
    if complete {
        (m, ScheduleOutcome::Cached)
    } else if uncacheable {
        (m, ScheduleOutcome::Uncacheable)
    } else if m.contains_key(path) {
        (m, ScheduleOutcome::AlreadyInProgress(m[path]))
    } else {
        (m.insert(path, None), ScheduleOutcome::Scheduled)
    }
}

/// The registry after a worker of `path` announced `size`: only the first
/// announcement counts.
pub open spec fn record_size_spec(
    m: Map<Seq<char>, Option<u64>>,
    path: Seq<char>,
    size: u64,
) -> Map<Seq<char>, Option<u64>> {
    if m.contains_key(path) && m[path] is None {
        m.insert(path, Some(size))
    } else {
        m
    }
}

impl View for JobRegistry {
    type V = Map<Seq<char>, Option<u64>>;

    open spec fn view(&self) -> Map<Seq<char>, Option<u64>> {
        self.active@
    }
}

impl JobRegistry {
    /// At most one entry per path, and `active` agrees with `jobs`.
    pub open spec fn wf(&self) -> bool {
        &&& forall|i: int, j: int|
            0 <= i < j < self.jobs@.len() ==> #[trigger] self.jobs@[i].path@
                != #[trigger] self.jobs@[j].path@
        &&& forall|i: int|
            0 <= i < self.jobs@.len() ==> self@.contains_key(#[trigger] self.jobs@[i].path@)
                && self@[self.jobs@[i].path@] == self.jobs@[i].last_size
        &&& forall|p: Seq<char>|
            #[trigger] self@.contains_key(p) ==> exists|i: int|
                0 <= i < self.jobs@.len() && #[trigger] self.jobs@[i].path@ == p
    }

    pub fn new() -> (r: JobRegistry)
        ensures
            r.wf(),
            r@ == Map::<Seq<char>, Option<u64>>::empty(),
    {
        JobRegistry { jobs: Vec::new(), active: Ghost(Map::empty()) }
    }

    fn find(&self, path: &String) -> (r: Option<usize>)
        requires
            self.wf(),
        ensures
            r matches Some(i) ==> i < self.jobs@.len() && self.jobs@[i as int].path@ == path@,
            r is None ==> !self@.contains_key(path@),
    {
        let mut i: usize = 0;
        while i < self.jobs.len()
            invariant
                i <= self.jobs@.len(),
                forall|j: int| 0 <= j < i ==> self.jobs@[j].path@ != path@,
            decreases self.jobs@.len() - i,
        {
            if self.jobs[i].path == *path {
                return Some(i);
            }
            i = i + 1;
        }
        None
    }

    /// Tells whether a job for `path` is active.
    pub fn is_active(&self, path: &String) -> (r: bool)
        requires
            self.wf(),
        ensures
            r == self@.contains_key(path@),
    {
        self.find(path).is_some()
    }

    /// Decides a request for `path`: served from disk when `complete`, by
    /// redirect when `uncacheable`, else attached to the active job or, when
    /// there is none, registered as a new one.
    pub fn try_schedule(&mut self, path: &String, complete: bool, uncacheable: bool) -> (r:
        ScheduleOutcome)
        requires
            old(self).wf(),
        ensures
            final(self).wf(),
            (final(self)@, r) == schedule_spec(old(self)@, path@, complete, uncacheable),
    {
        if complete {
            return ScheduleOutcome::Cached;
        }
        if uncacheable {
            return ScheduleOutcome::Uncacheable;
        }
        match self.find(path) {
            Some(i) => ScheduleOutcome::AlreadyInProgress(self.jobs[i].last_size),
            None => {
                let ghost old_jobs = self.jobs@;
                self.jobs.push(JobEntry { path: path.clone(), last_size: None });
                self.active = Ghost(self.active@.insert(path@, None));
                proof {
                    let n = old_jobs.len() as int;
                    assert forall|p: Seq<char>| #[trigger] self@.contains_key(p) implies exists|
                        i: int,
                    | 0 <= i < self.jobs@.len() && #[trigger] self.jobs@[i].path@ == p by {
                        if p == path@ {
                            assert(self.jobs@[n].path@ == p);
                        } else {
                            let i = choose|i: int|
                                0 <= i < old_jobs.len() && #[trigger] old_jobs[i].path@ == p;
                            assert(self.jobs@[i].path@ == p);
                        }
                    }
                }
                ScheduleOutcome::Scheduled
            },
        }
    }

    /// Attaches a subscriber to the active job of `path`: the size announced
    /// so far, or `None` when no job is active.
    pub fn subscribe(&self, path: &String) -> (r: Option<Option<u64>>)
        requires
            self.wf(),
        ensures
            r == (if self@.contains_key(path@) {
                Some(self@[path@])
            } else {
                None
            }),
    {
        match self.find(path) {
            Some(i) => Some(self.jobs[i].last_size),
            None => None,
        }
    }

    /// Records the size that the worker of `path` announced.
    pub fn record_size(&mut self, path: &String, size: u64)
        requires
            old(self).wf(),
        ensures
            final(self).wf(),
            final(self)@ == record_size_spec(old(self)@, path@, size),
    {
        match self.find(path) {
            Some(i) => {
                if self.jobs[i].last_size.is_none() {
                    let ghost old_jobs = self.jobs@;
                    self.jobs[i].last_size = Some(size);
                    self.active = Ghost(self.active@.insert(path@, Some(size)));
                    proof {
                        assert forall|j: int| 0 <= j < self.jobs@.len() && j != i implies #[trigger]
                            self.jobs@[j] == old_jobs[j] by {}
                        assert forall|p: Seq<char>| #[trigger]
                            self@.contains_key(p) implies exists|k: int|
                            0 <= k < self.jobs@.len() && #[trigger] self.jobs@[k].path@ == p by {
                            let k = choose|k: int|
                                0 <= k < old_jobs.len() && #[trigger] old_jobs[k].path@ == p;
                            assert(self.jobs@[k].path@ == p);
                        }
                    }
                }
            },
            None => {},
        }
    }

    /// Removes the job of `path` once its worker reached a terminal state.
    pub fn retire(&mut self, path: &String)
        requires
            old(self).wf(),
        ensures
            final(self).wf(),
            final(self)@ == old(self)@.remove(path@),
    {
        match self.find(path) {
            Some(i) => {
                let ghost old_jobs = self.jobs@;
                let ghost old_map = self@;
                self.jobs.remove(i);
                self.active = Ghost(self.active@.remove(path@));
                proof {
                    assert forall|j: int| 0 <= j < self.jobs@.len() implies #[trigger]
                        self.jobs@[j] == old_jobs[if j < i {
                            j
                        } else {
                            j + 1
                        }] by {}
                    assert forall|a: int, b: int|
                        0 <= a < b < self.jobs@.len() implies #[trigger] self.jobs@[a].path@
                        != #[trigger] self.jobs@[b].path@ by {
                        assert(self.jobs@[a] == old_jobs[if a < i { a } else { a + 1 }]);
                        assert(self.jobs@[b] == old_jobs[if b < i { b } else { b + 1 }]);
                    }
                    assert forall|a: int| 0 <= a < self.jobs@.len() implies self@.contains_key(
                        #[trigger] self.jobs@[a].path@,
                    ) && self@[self.jobs@[a].path@] == self.jobs@[a].last_size by {
                        let k = if a < i { a } else { a + 1 };
                        assert(self.jobs@[a] == old_jobs[k]);
                        assert(old_jobs[k].path@ != old_jobs[i as int].path@);
                    }
                    assert forall|p: Seq<char>| #[trigger]
                        self@.contains_key(p) implies exists|k: int|
                        0 <= k < self.jobs@.len() && #[trigger] self.jobs@[k].path@ == p by {
                        let k = choose|k: int|
                            0 <= k < old_jobs.len() && #[trigger] old_jobs[k].path@ == p;
                        assert(k != i);
                        let k2 = if k < i { k } else { k - 1 };
                        assert(self.jobs@[k2] == old_jobs[k]);
                    }
                }
            },
            None => {
                assert(self@ =~= old(self)@.remove(path@));
            },
        }
    }
}

} // verus!
