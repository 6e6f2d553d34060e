//! The scheduler: the jobs it watches, keyed by identifier, and the jobs whose
//! progress waits to be stored.
use std::collections::HashMap;
use vstd::prelude::*;
use vstd::std_specs::iter::IteratorSpec;

use crate::ids::JobId;
use crate::job::{advanced, checked_in, instant_view, punctual, valid_if_some, Job, JobView};
use crate::schedule::schedulable;
use crate::time::{read_from_clock, utc_now, Timestamp};

verus! {

broadcast use vstd::std_specs::hash::group_hash_axioms;

/// The identifiers of the entries of `map`, each once.
fn keys_of(map: &HashMap<JobId, Job>) -> (ids: Vec<JobId>)
    ensures
        ids@.no_duplicates(),
        ids@.to_set() == map@.dom(),
{
    let mut ids: Vec<JobId> = Vec::new();
    let ghost keys = vstd::std_specs::hash::spec_keys_iter(map).remaining().unref();
    for id in it: map.keys()
        invariant
            ids@ == it.seq().take(it.index()).unref(),
            it.seq().unref() == keys,
    {
        ids.push(*id);
    }
    assert(ids@ =~= keys);
    ids
}

} // verus!

verus! {

/// The jobs a scheduler watches, keyed by identifier, and the jobs whose latest state
/// waits to be stored.
pub struct Scheduler {
    jobs: HashMap<JobId, Job>,
    update_queue: HashMap<JobId, Job>,
}

/// The mathematical content of a scheduler.
pub struct SchedulerView {
    pub jobs: Map<JobId, JobView>,
    pub update_queue: Map<JobId, JobView>,
}

/// The views of the jobs in `map`.
pub open spec fn map_view(map: Map<JobId, Job>) -> Map<JobId, JobView> {
    Map::new(|k: JobId| map.contains_key(k), |k: JobId| map[k]@)
}

/// Every job in `map` is well formed and stored under its own identifier.
pub open spec fn keyed_by_id(map: Map<JobId, Job>) -> bool {
    forall|k: JobId| #[trigger] map.contains_key(k) ==> map[k].wf() && map[k]@.id == k
}

/// The map `jobs` indexes: each job under its identifier, a later job replacing an
/// earlier one with the same identifier.
pub open spec fn indexed(jobs: Seq<JobView>) -> Map<JobId, JobView>
    decreases jobs.len(),
{
    if jobs.len() == 0 {
        Map::empty()
    } else {
        indexed(jobs.drop_last()).insert(jobs.last().id, jobs.last())
    }
}

/// What a punctuality check on `id` answers at the instant `now`: `None` for an
/// unknown job, else whether the job is punctual and when it last ran.
pub open spec fn punctuality_of(jobs: Map<JobId, JobView>, id: JobId, now: int) -> Option<(bool, Option<int>)> {
    if jobs.contains_key(id) {
        Some((punctual(jobs[id], Some(now)), jobs[id].last_run))
    } else {
        None
    }
}

impl View for Scheduler {
    type V = SchedulerView;

    closed spec fn view(&self) -> SchedulerView {
        SchedulerView { jobs: map_view(self.jobs@), update_queue: map_view(self.update_queue@) }
    }
}

impl Scheduler {
    /// Both maps hold well-formed jobs under their own identifiers.
    pub closed spec fn wf(&self) -> bool {
        keyed_by_id(self.jobs@) && keyed_by_id(self.update_queue@)
    }

    /// A scheduler watching `jobs`, with nothing waiting to be stored. Of two jobs with
    /// the same identifier the later one is kept.
    pub fn new(jobs: Vec<Job>) -> (r: Scheduler)
        requires
            forall|i: int| 0 <= i < jobs.len() ==> #[trigger] jobs[i].wf(),
        ensures
            r.wf(),
            r@.jobs == indexed(jobs@.map_values(|j: Job| j@)),
            r@.update_queue == Map::<JobId, JobView>::empty(),
    {
        let ghost all = jobs@;
        let mut rest = jobs;
        let mut scheduler = Scheduler { jobs: HashMap::new(), update_queue: HashMap::new() };
        let mut i: usize = 0;
        let total: usize = rest.len();
        while rest.len() > 0
            invariant
                all.len() == total,
                scheduler.wf(),
                0 <= i <= all.len(),
                rest@ == all.skip(i as int),
                forall|j: int| 0 <= j < all.len() ==> #[trigger] all[j].wf(),
                scheduler@.jobs == indexed(all.take(i as int).map_values(|j: Job| j@)),
                scheduler@.update_queue == Map::<JobId, JobView>::empty(),
            decreases rest.len(),
        {
            assert(i < all.len());
            let job = rest.remove(0);
            proof {
                assert(all.take(i + 1).map_values(|j: Job| j@).drop_last() =~= all.take(
                    i as int,
                ).map_values(|j: Job| j@));
                assert(all[i as int] == job);
            }
            scheduler.add(job);
            i = i + 1;
            assert(rest@ =~= all.skip(i as int));
        }
        assert(all.take(i as int) =~= all);
        scheduler
    }

    /// How many jobs are watched.
    pub fn job_count(&self) -> (r: usize)
        requires
            self.wf(),
        ensures
            r == self@.jobs.len(),
    {
        assert(self@.jobs.dom() =~= self.jobs@.dom());
        self.jobs.len()
    }

    /// Watches `job`, replacing a job with the same identifier.
    pub fn add(&mut self, job: Job)
        requires
            old(self).wf(),
            job.wf(),
        ensures
            final(self).wf(),
            final(self)@.jobs == old(self)@.jobs.insert(job@.id, job@),
            final(self)@.update_queue == old(self)@.update_queue,
    {
        let id = job.id();
        self.jobs.insert(id, job);
        assert(self@.jobs =~= old(self)@.jobs.insert(id, job@));
    }

    /// Stops watching the job `id`.
    pub fn remove_job(&mut self, id: JobId)
        requires
            old(self).wf(),
        ensures
            final(self).wf(),
            final(self)@.jobs == old(self)@.jobs.remove(id),
            final(self)@.update_queue == old(self)@.update_queue,
    {
        self.jobs.remove(&id);
        assert(self@.jobs =~= old(self)@.jobs.remove(id));
    }
    /// Records a check-in of the job `id` at `time` and queues the job to be stored;
    /// nothing changes when no such job is watched.
    pub fn check_in(&mut self, id: JobId, time: Timestamp)
        requires
            old(self).wf(),
            schedulable(time),
        ensures
            final(self).wf(),
            old(self)@.jobs.contains_key(id) ==> {
                let job = checked_in(old(self)@.jobs[id], time@);
                &&& final(self)@.jobs == old(self)@.jobs.insert(id, job)
                &&& final(self)@.update_queue == old(self)@.update_queue.insert(id, job)
            },
            !old(self)@.jobs.contains_key(id) ==> final(self)@ == old(self)@,
    {
        match self.jobs.remove(&id) {
            Some(job) => {
                let mut job = job;
                job.run(time);
                let queued = job.clone();
                self.update_queue.insert(id, queued);
                self.jobs.insert(id, job);
                assert(self@.jobs =~= old(self)@.jobs.insert(id, checked_in(old(self)@.jobs[id], time@)));
                assert(self@.update_queue =~= old(self)@.update_queue.insert(id, checked_in(old(self)@.jobs[id], time@)));
            },
            None => {
                assert(self.jobs@ =~= old(self).jobs@);
                assert(self@.jobs =~= old(self)@.jobs);
            },
        }
    }

    /// Advances every job to `now`; each job whose pending run was due is queued to be stored.
    pub fn tick(&mut self, now: Timestamp)
        requires
            old(self).wf(),
            schedulable(now),
        ensures
            final(self).wf(),
            final(self)@.jobs == all_ticked(old(self)@.jobs, now@),
            final(self)@.update_queue == queued_after_tick(old(self)@.jobs, old(self)@.update_queue, now@),
    {
        let ghost start = self@;
        let ids = keys_of(&self.jobs);
        let n = ids.len();
        let mut i: usize = 0;
        while i < n
            invariant
                self.wf(),
                0 <= i <= n,
                n == ids@.len(),
                ids@.no_duplicates(),
                ids@.to_set() == start.jobs.dom(),
                schedulable(now),
                self@.jobs == ticked_among(start.jobs, now@, ids@.take(i as int).to_set()),
                self@.update_queue == queued_among(start.jobs, start.update_queue, now@, ids@.take(i as int).to_set()),
            decreases n - i,
        {
            let id = ids[i];
            let ghost done = ids@.take(i as int).to_set();
            let ghost next_done = ids@.take(i + 1).to_set();
            proof {
                assert(ids@.take(i + 1) =~= ids@.take(i as int).push(id));
                lemma_push_to_set(ids@.take(i as int), id);
                lemma_not_in_prefix(ids@, i as int);
                assert(ids@.to_set().contains(id));
                assert(start.jobs.contains_key(id));
            }
            let ghost before = self@;
            let ghost before_jobs = self.jobs@;
            let ghost before_queue = self.update_queue@;
            assert(before.jobs[id] == start.jobs[id]);
            assert(before.jobs.contains_key(id));
            assert(before_jobs.contains_key(id));
            match self.jobs.remove(&id) {
                Some(job) => {
                    assert(job@ == start.jobs[id]);
                    let mut job = job;
                    let changed = job.advance(now);
                    assert(job@ == advanced(start.jobs[id], now@));
                    if changed {
                        let queued = job.clone();
                        self.update_queue.insert(id, queued);
                        assert(self@.update_queue =~= before.update_queue.insert(id, advanced(start.jobs[id], now@)));
                    } else {
                        assert(self@.update_queue =~= before.update_queue);
                    }
                    self.jobs.insert(id, job);
                    proof {
                        assert forall|k: JobId| #[trigger] self@.jobs.contains_key(k) implies
                            self@.jobs[k] == ticked_among(start.jobs, now@, next_done)[k] by {
                            if k != id {
                                assert(before_jobs.contains_key(k));
                                assert(self@.jobs[k] == before.jobs[k]);
                            }
                        }
                        assert(self@.jobs.dom() =~= ticked_among(start.jobs, now@, next_done).dom());
                        assert(self@.jobs =~= ticked_among(start.jobs, now@, next_done));
                        let target = queued_among(start.jobs, start.update_queue, now@, next_done);
                        assert forall|k: JobId| #[trigger] self@.update_queue.contains_key(k) implies
                            self@.update_queue[k] == target[k] by {
                            if k != id {
                                assert(self@.update_queue[k] == before.update_queue[k]);
                            }
                        }
                        assert forall|k: JobId| #[trigger] target.contains_key(k) implies
                            self@.update_queue.contains_key(k) by {
                            if k != id {
                                assert(before.update_queue.contains_key(k));
                            }
                        }
                        assert(self@.update_queue.dom() =~= target.dom());
                        assert(self@.update_queue =~= target);
                    }
                },
                None => {},
            }
            i = i + 1;
        }
        proof {
            assert(ids@.take(n as int) =~= ids@);
            assert(self@.jobs =~= all_ticked(start.jobs, now@));
            assert(self@.update_queue =~= queued_after_tick(start.jobs, start.update_queue, now@));
        }
    }

    /// The watched jobs that are not punctual at `now`, each once, with its last
    /// expected run: the alerts to send.
    pub fn snitch_targets(&self, now: Timestamp) -> (r: Vec<(JobId, Timestamp)>)
        requires
            self.wf(),
        ensures
            reports_missed(self@.jobs, now@, r@),
    {
        let ids = keys_of(&self.jobs);
        let n = ids.len();
        let mut r: Vec<(JobId, Timestamp)> = Vec::new();
        let mut i: usize = 0;
        while i < n
            invariant
                self.wf(),
                0 <= i <= n,
                n == ids@.len(),
                ids@.no_duplicates(),
                ids@.to_set() == self@.jobs.dom(),
                forall|j: int| 0 <= j < r@.len() ==> {
                    &&& missed(self@.jobs, #[trigger] r@[j].0, r@[j].1@, now@)
                    &&& r@[j].1.valid()
                    &&& ids@.take(i as int).to_set().contains(r@[j].0)
                },
                forall|j: int, k: int| 0 <= j < r@.len() && 0 <= k < r@.len() && j != k
                    ==> #[trigger] r@[j].0 != #[trigger] r@[k].0,
                forall|m: int| 0 <= m < i && !punctual(self@.jobs[#[trigger] ids@[m]], Some(now@))
                    ==> exists|j: int| 0 <= j < r@.len() && #[trigger] r@[j].0 == ids@[m],
            decreases n - i,
        {
            let id = ids[i];
            proof {
                lemma_not_in_prefix(ids@, i as int);
                lemma_push_to_set(ids@.take(i as int), id);
                assert(ids@.take(i + 1) =~= ids@.take(i as int).push(id));
                assert(ids@.to_set().contains(id));
            }
            let ghost before = r@;
            match self.jobs.get(&id) {
                Some(job) => {
                    assert(self.jobs@.contains_key(id));
                    assert(job.wf());
                    if !job.is_punctual(Some(now)) {
                        match job.get_last_expected_run() {
                            Some(t) => {
                                assert(t.valid());
                                r.push((id, t));
                            },
                            None => {},
                        }
                    }
                },
                None => {},
            }
            let ghost old_i = i;
            i = i + 1;
            assert(ids@.take(i as int) == ids@.take(old_i + 1));
            proof {
                let next = ids@.take(i as int).to_set();
                assert forall|j: int| 0 <= j < r@.len() implies missed(self@.jobs, #[trigger] r@[j].0, r@[j].1@, now@) by {
                    if j < before.len() {
                        assert(r@[j] == before[j]);
                    }
                }
                assert forall|j: int| 0 <= j < r@.len() implies (#[trigger] r@[j]).1.valid() by {
                    if j < before.len() {
                        assert(r@[j] == before[j]);
                        assert(missed(self@.jobs, before[j].0, before[j].1@, now@));
                    }
                }
                assert forall|j: int| 0 <= j < r@.len() implies next.contains(#[trigger] r@[j].0) by {
                    if j < before.len() {
                        assert(r@[j] == before[j]);
                        assert(ids@.take(old_i as int).to_set().contains(before[j].0));
                    }
                }
                assert forall|m: int| 0 <= m < i && !punctual(self@.jobs[#[trigger] ids@[m]], Some(now@))
                    implies exists|j: int| 0 <= j < r@.len() && #[trigger] r@[j].0 == ids@[m] by {
                    if m < old_i {
                        let j = choose|j: int| 0 <= j < before.len() && #[trigger] before[j].0 == ids@[m];
                        assert(r@[j] == before[j]);
                    } else {
                        assert(r@[before.len() as int].0 == id);
                    }
                }
                assert forall|j: int, k: int| 0 <= j < r@.len() && 0 <= k < r@.len() && j != k
                    implies #[trigger] r@[j].0 != #[trigger] r@[k].0 by {
                    if j < before.len() && k < before.len() {
                        assert(r@[j] == before[j] && r@[k] == before[k]);
                    } else if j < before.len() {
                        assert(r@[j] == before[j]);
                    } else if k < before.len() {
                        assert(r@[k] == before[k]);
                    }
                }
            }
        }
        proof {
            assert(ids@.take(n as int) =~= ids@);
            assert forall|id: JobId| #[trigger] self@.jobs.contains_key(id) && !punctual(self@.jobs[id], Some(now@))
                implies exists|j: int| 0 <= j < r@.len() && #[trigger] r@[j].0 == id by {
                assert(ids@.to_set().contains(id));
                let m = choose|m: int| 0 <= m < ids@.len() && ids@[m] == id;
                assert(!punctual(self@.jobs[ids@[m]], Some(now@)));
            }
        }
        r
    }

    /// The alerts to send now: the watched jobs that are not punctual at the instant read
    /// from the clock, each once, with its last expected run.
    pub fn run_snitch(&self) -> (r: Vec<(JobId, Timestamp)>)
        requires
            self.wf(),
        ensures
            exists|now: Timestamp| now.valid() && reports_missed(self@.jobs, now@, r@),
            exists|now: Timestamp| #[trigger] read_from_clock(now) && reports_missed(self@.jobs, now@, r@),
    {
        let now = utc_now();
        let r = self.snitch_targets(now);
        assert(now.valid() && reports_missed(self@.jobs, now@, r@));
        assert(read_from_clock(now) && reports_missed(self@.jobs, now@, r@));
        r
    }

    /// Hands out every job waiting to be stored, each once, and empties the queue.
    pub fn run_updater(&mut self) -> (r: Vec<Job>)
        requires
            old(self).wf(),
        ensures
            final(self).wf(),
            final(self)@.jobs == old(self)@.jobs,
            final(self)@.update_queue == Map::<JobId, JobView>::empty(),
            drains(old(self)@.update_queue, r@),
    {
        let ghost start = self@;
        let ids = keys_of(&self.update_queue);
        let n = ids.len();
        let mut r: Vec<Job> = Vec::new();
        let mut i: usize = 0;
        while i < n
            invariant
                self.wf(),
                0 <= i <= n,
                n == ids@.len(),
                ids@.no_duplicates(),
                ids@.to_set() == start.update_queue.dom(),
                self@.jobs == start.jobs,
                self@.update_queue == start.update_queue.remove_keys(ids@.take(i as int).to_set()),
                forall|j: int| 0 <= j < r@.len() ==> {
                    &&& (#[trigger] r@[j]).wf()
                    &&& start.update_queue.contains_key(r@[j]@.id)
                    &&& start.update_queue[r@[j]@.id] == r@[j]@
                    &&& ids@.take(i as int).to_set().contains(r@[j]@.id)
                },
                forall|j: int, k: int| 0 <= j < r@.len() && 0 <= k < r@.len() && j != k
                    ==> (#[trigger] r@[j])@.id != (#[trigger] r@[k])@.id,
                forall|m: int| 0 <= m < i ==> exists|j: int| 0 <= j < r@.len() && (#[trigger] r@[j])@.id == #[trigger] ids@[m],
            decreases n - i,
        {
            let id = ids[i];
            let ghost before = self@;
            let ghost before_queue = self.update_queue@;
            let ghost before_r = r@;
            proof {
                lemma_not_in_prefix(ids@, i as int);
                lemma_push_to_set(ids@.take(i as int), id);
                assert(ids@.take(i + 1) =~= ids@.take(i as int).push(id));
                assert(ids@.to_set().contains(id));
                assert(before.update_queue.contains_key(id));
                assert(before_queue.contains_key(id));
            }
            assert(before.update_queue[id] == start.update_queue[id]);
            match self.update_queue.remove(&id) {
                Some(job) => {
                    assert(job == before_queue[id]);
                    assert(job@ == before.update_queue[id]);
                    r.push(job);
                    proof {
                        let next = ids@.take(i + 1).to_set();
                        assert(self.update_queue@ == before_queue.remove(id));
                        assert forall|k: JobId| #[trigger] self@.update_queue.contains_key(k) implies
                            self@.update_queue[k] == start.update_queue.remove_keys(next)[k]
                            && start.update_queue.remove_keys(next).contains_key(k) by {
                            assert(before.update_queue.contains_key(k));
                            assert(self@.update_queue[k] == before.update_queue[k]);
                            assert(!next.contains(k));
                            assert(!ids@.take(i as int).to_set().contains(k));
                            assert(before.update_queue[k] == start.update_queue[k]);
                            assert(start.update_queue.remove_keys(next).contains_key(k));
                        }
                        assert forall|k: JobId| #[trigger] start.update_queue.remove_keys(next).contains_key(k) implies
                            self@.update_queue.contains_key(k) by {
                            assert(before.update_queue.contains_key(k));
                            assert(before_queue.contains_key(k));
                        }
                        assert(self@.update_queue =~= start.update_queue.remove_keys(next));
                        assert forall|j: int| 0 <= j < r@.len() implies {
                            &&& (#[trigger] r@[j]).wf()
                            &&& start.update_queue.contains_key(r@[j]@.id)
                            &&& start.update_queue[r@[j]@.id] == r@[j]@
                            &&& next.contains(r@[j]@.id)
                        } by {
                            if j < before_r.len() {
                                assert(r@[j] == before_r[j]);
                            }
                        }
                        assert forall|j: int, k: int| 0 <= j < r@.len() && 0 <= k < r@.len() && j != k
                            implies (#[trigger] r@[j])@.id != (#[trigger] r@[k])@.id by {
                            if j < before_r.len() {
                                assert(r@[j] == before_r[j]);
                            }
                            if k < before_r.len() {
                                assert(r@[k] == before_r[k]);
                            }
                        }
                        assert forall|m: int| 0 <= m < i + 1 implies exists|j: int| 0 <= j < r@.len() && (#[trigger] r@[j])@.id == #[trigger] ids@[m] by {
                            if m < i {
                                let j = choose|j: int| 0 <= j < before_r.len() && (#[trigger] before_r[j])@.id == ids@[m];
                                assert(r@[j] == before_r[j]);
                            } else {
                                assert(r@[before_r.len() as int]@.id == id);
                            }
                        }
                    }
                },
                None => {},
            }
            i = i + 1;
        }
        proof {
            assert(ids@.take(n as int) =~= ids@);
            assert(self@.update_queue =~= Map::<JobId, JobView>::empty());
            assert forall|id: JobId| #[trigger] start.update_queue.contains_key(id)
                implies exists|j: int| 0 <= j < r@.len() && (#[trigger] r@[j])@.id == id by {
                assert(ids@.to_set().contains(id));
                let m = choose|m: int| 0 <= m < ids@.len() && ids@[m] == id;
                assert(exists|j: int| 0 <= j < r@.len() && (#[trigger] r@[j])@.id == ids@[m]);
            }
        }
        r
    }

    /// Whether the job `id` is punctual at `now`, and when it last ran; `None` when no
    /// such job is watched.
    pub fn is_punctual_at(&self, id: JobId, now: Timestamp) -> (r: Option<(bool, Option<Timestamp>)>)
        requires
            self.wf(),
        ensures
            answer_view(r) == punctuality_of(self@.jobs, id, now@),
            r matches Some((_, last_run)) ==> valid_if_some(last_run),
    {
        match self.jobs.get(&id) {
            Some(job) => Some((job.is_punctual(Some(now)), job.get_last_run())),
            None => None,
        }
    }

    /// Whether the job `id` is punctual now, and when it last ran; `None` when no such
    /// job is watched. The instant is read from the clock.
    pub fn is_punctual(&self, id: JobId) -> (r: Option<(bool, Option<Timestamp>)>)
        requires
            self.wf(),
        ensures
            r is Some <==> self@.jobs.contains_key(id),
            r matches Some((p, last_run)) ==> {
                &&& instant_view(last_run) == self@.jobs[id].last_run
                &&& exists|now: Timestamp| now.valid() && p == punctual(self@.jobs[id], Some(now@))
            },
            exists|now: Timestamp| #[trigger] read_from_clock(now) && answer_view(r) == punctuality_of(self@.jobs, id, now@),
    {
        let now = utc_now();
        let r = self.is_punctual_at(id, now);
        proof {
            if let Some((p, _)) = r {
                assert(now.valid() && p == punctual(self@.jobs[id], Some(now@)));
            }
            assert(read_from_clock(now) && answer_view(r) == punctuality_of(self@.jobs, id, now@));
        }
        r
    }
}

/// The elements of `s` pushed with `x` are those of `s` and `x`.
proof fn lemma_push_to_set(s: Seq<JobId>, x: JobId)
    ensures
        s.push(x).to_set() == s.to_set().insert(x),
{
    assert forall|y: JobId| s.push(x).to_set().contains(y) <==> s.to_set().insert(x).contains(y) by {
        if s.to_set().contains(y) {
            let j = choose|j: int| 0 <= j < s.len() && s[j] == y;
            assert(s.push(x)[j] == y);
        }
        if y == x {
            assert(s.push(x)[s.len() as int] == x);
        }
        if s.push(x).to_set().contains(y) {
            let j = choose|j: int| 0 <= j < s.len() + 1 && s.push(x)[j] == y;
            if j < s.len() {
                assert(s[j] == y);
            }
        }
    }
    assert(s.push(x).to_set() =~= s.to_set().insert(x));
}

/// Whether the job `k` of `jobs` is due at `now`.
pub open spec fn due(jobs: Map<JobId, JobView>, k: JobId, now: int) -> bool {
    jobs.contains_key(k) && jobs[k].next_run <= now
}

/// `jobs` after the jobs in `done` advanced to `now`.
pub open spec fn ticked_among(jobs: Map<JobId, JobView>, now: int, done: Set<JobId>) -> Map<JobId, JobView> {
    Map::new(
        |k: JobId| jobs.contains_key(k),
        |k: JobId| if done.contains(k) { advanced(jobs[k], now) } else { jobs[k] },
    )
}

/// `queue` after the jobs in `done` advanced to `now`: each that was due is queued in its
/// advanced state.
pub open spec fn queued_among(
    jobs: Map<JobId, JobView>,
    queue: Map<JobId, JobView>,
    now: int,
    done: Set<JobId>,
) -> Map<JobId, JobView> {
    Map::new(
        |k: JobId| queue.contains_key(k) || (done.contains(k) && due(jobs, k, now)),
        |k: JobId| if done.contains(k) && due(jobs, k, now) { advanced(jobs[k], now) } else { queue[k] },
    )
}

/// Every job of `jobs` advanced to `now`.
pub open spec fn all_ticked(jobs: Map<JobId, JobView>, now: int) -> Map<JobId, JobView> {
    ticked_among(jobs, now, jobs.dom())
}

/// `queue` after every job of `jobs` advanced to `now`.
pub open spec fn queued_after_tick(jobs: Map<JobId, JobView>, queue: Map<JobId, JobView>, now: int) -> Map<JobId, JobView> {
    queued_among(jobs, queue, now, jobs.dom())
}

/// Whether `expected` is a missed run of the job `id` to report at `now`: the job is
/// watched, is not punctual at `now`, and `expected` is its last expected run.
pub open spec fn missed(jobs: Map<JobId, JobView>, id: JobId, expected: int, now: int) -> bool {
    &&& jobs.contains_key(id)
    &&& !punctual(jobs[id], Some(now))
    &&& jobs[id].last_expected_run == Some(expected)
}

/// `reports` lists, once per job, exactly the watched jobs that are not punctual at
/// `now`, each with its last expected run.
pub open spec fn reports_missed(jobs: Map<JobId, JobView>, now: int, reports: Seq<(JobId, Timestamp)>) -> bool {
    &&& forall|i: int| 0 <= i < reports.len() ==> {
        &&& missed(jobs, #[trigger] reports[i].0, reports[i].1@, now)
        &&& reports[i].1.valid()
    }
    &&& forall|i: int, j: int| 0 <= i < reports.len() && 0 <= j < reports.len() && i != j
        ==> #[trigger] reports[i].0 != #[trigger] reports[j].0
    &&& forall|id: JobId| #[trigger] jobs.contains_key(id) && !punctual(jobs[id], Some(now))
        ==> exists|i: int| 0 <= i < reports.len() && #[trigger] reports[i].0 == id
}

/// `handed` holds, once each, exactly the jobs of `queue`.
pub open spec fn drains(queue: Map<JobId, JobView>, handed: Seq<Job>) -> bool {
    &&& forall|i: int| 0 <= i < handed.len() ==> {
        &&& (#[trigger] handed[i]).wf()
        &&& queue.contains_key(handed[i]@.id)
        &&& queue[handed[i]@.id] == handed[i]@
    }
    &&& forall|i: int, j: int| 0 <= i < handed.len() && 0 <= j < handed.len() && i != j
        ==> (#[trigger] handed[i])@.id != (#[trigger] handed[j])@.id
    &&& forall|id: JobId| #[trigger] queue.contains_key(id)
        ==> exists|i: int| 0 <= i < handed.len() && (#[trigger] handed[i])@.id == id
}

/// An element of `s` that lies in its first `i` elements does not lie at position `i`
/// when `s` holds no duplicates.
proof fn lemma_not_in_prefix(s: Seq<JobId>, i: int)
    requires
        s.no_duplicates(),
        0 <= i < s.len(),
    ensures
        !s.take(i).to_set().contains(s[i]),
{
    if s.take(i).to_set().contains(s[i]) {
        let j = choose|j: int| 0 <= j < i && s.take(i)[j] == s[i];
        assert(s[j] == s[i]);
    }
}

/// An answer of a punctuality check, with the instant of the last run in nanoseconds.
pub open spec fn answer_view(r: Option<(bool, Option<Timestamp>)>) -> Option<(bool, Option<int>)> {
    match r {
        Some((p, last_run)) => Some((p, instant_view(last_run))),
        None => None,
    }
}

} // verus!

verus! {

/// How long the scheduler's loop sleeps between two rounds, in milliseconds.
pub const TICK_SLEEP_MILLIS: u64 = 20;

/// How often missed check-ins are alerted, in milliseconds.
pub const SNITCH_INTERVAL_MILLIS: u64 = 60_000;

/// How often the jobs' progress is stored, in milliseconds.
pub const UPDATE_INTERVAL_MILLIS: u64 = 180_000;

/// When the scheduler's loop next alerts missed check-ins and next stores progress,
/// in milliseconds on the loop's own clock.
#[derive(Debug, Clone, Copy, PartialEq, Eq, Structural)]
pub struct MaintenanceTimer {
    pub next_snitch_run: u64,
    pub next_update_run: u64,
}

/// Which periodic tasks a round of the loop runs.
#[derive(Debug, Clone, Copy, PartialEq, Eq, Structural)]
pub struct MaintenanceDue {
    pub run_snitch: bool,
    pub run_updater: bool,
}

/// The timer and the tasks due after a round at `timer`: each task runs when its time
/// has come and is then rescheduled one interval after `timer`.
pub open spec fn maintenance_step(t: MaintenanceTimer, timer: int) -> (MaintenanceTimer, MaintenanceDue) {
    let run_snitch = t.next_snitch_run <= timer;
    let run_updater = t.next_update_run <= timer;
    (
        MaintenanceTimer {
            next_snitch_run: if run_snitch { (timer + SNITCH_INTERVAL_MILLIS) as u64 } else { t.next_snitch_run },
            next_update_run: if run_updater { (timer + UPDATE_INTERVAL_MILLIS) as u64 } else { t.next_update_run },
        },
        MaintenanceDue { run_snitch, run_updater },
    )
}

/// Whether the loop's clock reading `timer` leaves room for the longest interval.
pub open spec fn timer_in_range(timer: int) -> bool {
    0 <= timer <= u64::MAX - UPDATE_INTERVAL_MILLIS
}

/// The timer after rounds at the loop-clock readings `readings`, in order.
pub open spec fn timer_after_rounds(t: MaintenanceTimer, readings: Seq<int>) -> MaintenanceTimer
    decreases readings.len(),
{
    if readings.len() == 0 {
        t
    } else {
        maintenance_step(timer_after_rounds(t, readings.drop_last()), readings.last()).0
    }
}

/// The tasks due in round `i` of the rounds at `readings`, started from `t`.
pub open spec fn round_due(t: MaintenanceTimer, readings: Seq<int>, i: int) -> MaintenanceDue {
    maintenance_step(timer_after_rounds(t, readings.take(i)), readings[i]).1
}

/// The reading of the last round before round `i` that alerted missed check-ins, or
/// `start` when none did.
pub open spec fn last_snitch_round(start: int, t: MaintenanceTimer, readings: Seq<int>, i: int) -> int
    decreases i,
{
    if i <= 0 {
        start
    } else if round_due(t, readings, i - 1).run_snitch {
        readings[i - 1]
    } else {
        last_snitch_round(start, t, readings, i - 1)
    }
}

/// The reading of the last round before round `i` that stored progress, or `start` when
/// none did.
pub open spec fn last_update_round(start: int, t: MaintenanceTimer, readings: Seq<int>, i: int) -> int
    decreases i,
{
    if i <= 0 {
        start
    } else if round_due(t, readings, i - 1).run_updater {
        readings[i - 1]
    } else {
        last_update_round(start, t, readings, i - 1)
    }
}

impl MaintenanceTimer {
    /// The timer of a loop started at `start`: the first alerts one snitch interval
    /// later, the first store one update interval later.
    pub fn new(start: u64) -> (r: MaintenanceTimer)
        requires
            timer_in_range(start as int),
        ensures
            r.next_snitch_run == start + SNITCH_INTERVAL_MILLIS,
            r.next_update_run == start + UPDATE_INTERVAL_MILLIS,
    {
        MaintenanceTimer {
            next_snitch_run: start + SNITCH_INTERVAL_MILLIS,
            next_update_run: start + UPDATE_INTERVAL_MILLIS,
        }
    }

    /// Decides, for a round at `timer`, whether to alert missed check-ins and whether to
    /// store progress, and reschedules what runs.
    pub fn due(&mut self, timer: u64) -> (r: MaintenanceDue)
        requires
            timer_in_range(timer as int),
        ensures
            (*final(self), r) == maintenance_step(*old(self), timer as int),
    {
        let run_snitch = self.next_snitch_run <= timer;
        let run_updater = self.next_update_run <= timer;
        if run_snitch {
            self.next_snitch_run = timer + SNITCH_INTERVAL_MILLIS;
        }
        if run_updater {
            self.next_update_run = timer + UPDATE_INTERVAL_MILLIS;
        }
        MaintenanceDue { run_snitch, run_updater }
    }
}

} // verus!
