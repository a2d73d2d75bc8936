use vstd::prelude::*;
use crate::cron_eval::{in_time_range, next_run, next_run_spec};
use crate::health::{http_verdict, verdict_spec, HttpOutcome};
use crate::model::{Job, JobType, Method, NewJob, Schedule};
use crate::status::{opt_write_view, planned_write, status_update, StatusWrite};

verus! {

/// Whether the reconciler makes a job for this schedule: it is enabled, no job is
/// linked to it yet, and its expression has a next run time.
pub open spec fn needs_job(s: Schedule, linked: Seq<i32>, now: i64) -> bool {
    s.enabled && !linked.contains(s.id) && next_run_spec(s.cron@, now) is Ok
}

/// The job made for a schedule that needs one.
pub open spec fn first_job(s: Schedule, now: i64) -> NewJob {
    NewJob {
        job_type: JobType::Monitoring,
        run_at: next_run_spec(s.cron@, now)->Ok_0,
        linked_id: Some(s.id),
    }
}

/// The jobs the start-up pass creates, in the order of the schedules.
pub open spec fn reconcile_spec(schedules: Seq<Schedule>, linked: Seq<i32>, now: i64) -> Seq<NewJob>
    decreases schedules.len(),
{
    if schedules.len() == 0 {
        seq![]
    } else {
        let rest = reconcile_spec(schedules.drop_last(), linked, now);
        if needs_job(schedules.last(), linked, now) {
            rest.push(first_job(schedules.last(), now))
        } else {
            rest
        }
    }
}

fn contains_i32(v: &Vec<i32>, x: i32) -> (b: bool)
    ensures
        b == v@.contains(x),
{
    let mut i: usize = 0;
    while i < v.len()
        invariant
            0 <= i <= v.len(),
            forall|k: int| 0 <= k < i ==> v@[k] != x,
        decreases v.len() - i,
    {
        if v[i] == x {
            return true;
        }
        i = i + 1;
    }
    false
}

fn contains_u64(v: &Vec<u64>, x: u64) -> (b: bool)
    ensures
        b == v@.contains(x),
{
    let mut i: usize = 0;
    while i < v.len()
        invariant
            0 <= i <= v.len(),
            forall|k: int| 0 <= k < i ==> v@[k] != x,
        decreases v.len() - i,
    {
        if v[i] == x {
            return true;
        }
        i = i + 1;
    }
    false
}

/// The start-up pass: for each enabled schedule with no linked job (`linked` holds
/// the schedule ids that jobs already point to), a Monitoring job at the schedule's
/// next run time. A schedule whose expression gives no next run time is skipped.
pub fn reconcile(schedules: &Vec<Schedule>, linked: &Vec<i32>, now: i64) -> (r: Vec<NewJob>)
    requires
        in_time_range(now),
    ensures
        r@ == reconcile_spec(schedules@, linked@, now),
{
    let mut out: Vec<NewJob> = Vec::new();
    let mut i: usize = 0;
    while i < schedules.len()
        invariant
            0 <= i <= schedules.len(),
            in_time_range(now),
            out@ == reconcile_spec(schedules@.take(i as int), linked@, now),
        decreases schedules.len() - i,
    {
        let s = &schedules[i];
        assert(schedules@.take(i + 1).drop_last() =~= schedules@.take(i as int));
        if s.enabled && !contains_i32(linked, s.id) {
            match next_run(s.cron.as_str(), now) {
                Ok(x) => {
                    out.push(NewJob { job_type: JobType::Monitoring, run_at: x, linked_id: Some(s.id) });
                },
                Err(_) => {},
            }
        }
        i = i + 1;
    }
    assert(schedules@.take(schedules@.len() as int) =~= schedules@);
    out
}

/// How many jobs of the list point to the schedule `id`.
pub open spec fn count_linked(jobs: Seq<NewJob>, id: i32) -> nat
    decreases jobs.len(),
{
    if jobs.len() == 0 {
        0
    } else {
        count_linked(jobs.drop_last(), id) + if jobs.last().linked_id == Some(id) {
            1nat
        } else {
            0nat
        }
    }
}

proof fn lemma_reconcile_absent(schedules: Seq<Schedule>, linked: Seq<i32>, now: i64, id: i32)
    requires
        forall|j: int| 0 <= j < schedules.len() ==> schedules[j].id != id,
    ensures
        count_linked(reconcile_spec(schedules, linked, now), id) == 0,
        forall|k: int|
            0 <= k < reconcile_spec(schedules, linked, now).len() ==> reconcile_spec(
                schedules,
                linked,
                now,
            )[k].linked_id != Some(id),
    decreases schedules.len(),
{
    if schedules.len() > 0 {
        let d = schedules.drop_last();
        assert forall|j: int| 0 <= j < d.len() implies d[j].id != id by {
            assert(d[j] == schedules[j]);
        }
        lemma_reconcile_absent(d, linked, now, id);
        let rest = reconcile_spec(d, linked, now);
        if needs_job(schedules.last(), linked, now) {
            let r = rest.push(first_job(schedules.last(), now));
            assert(r.drop_last() =~= rest);
            assert forall|k: int| 0 <= k < r.len() implies r[k].linked_id != Some(id) by {
                if k < rest.len() {
                    assert(r[k] == rest[k]);
                }
            }
        }
    }
}

/// The start-up pass makes exactly one job for an enabled schedule that has no linked
/// job and whose expression has a next run time, and that job runs at that time.
/// Schedule ids are taken to be unique, as the store keeps them.
pub proof fn lemma_reconcile_one_job(schedules: Seq<Schedule>, linked: Seq<i32>, now: i64, i: int)
    requires
        0 <= i < schedules.len(),
        forall|a: int, b: int|
            0 <= a < schedules.len() && 0 <= b < schedules.len() && a != b ==> schedules[a].id
                != schedules[b].id,
        schedules[i].enabled,
        !linked.contains(schedules[i].id),
        next_run_spec(schedules[i].cron@, now) is Ok,
    ensures
        count_linked(reconcile_spec(schedules, linked, now), schedules[i].id) == 1,
        forall|k: int|
            0 <= k < reconcile_spec(schedules, linked, now).len() && reconcile_spec(
                schedules,
                linked,
                now,
            )[k].linked_id == Some(schedules[i].id) ==> reconcile_spec(schedules, linked, now)[k]
                == first_job(schedules[i], now),
    decreases schedules.len(),
{
    let id = schedules[i].id;
    let d = schedules.drop_last();
    let rest = reconcile_spec(d, linked, now);
    let r = reconcile_spec(schedules, linked, now);
    if i == schedules.len() - 1 {
        assert forall|j: int| 0 <= j < d.len() implies d[j].id != id by {
            assert(d[j] == schedules[j]);
        }
        lemma_reconcile_absent(d, linked, now, id);
        assert(r == rest.push(first_job(schedules.last(), now)));
        assert(r.drop_last() =~= rest);
        assert forall|k: int| 0 <= k < r.len() && r[k].linked_id == Some(id) implies r[k]
            == first_job(schedules[i], now) by {
            if k < rest.len() {
                assert(r[k] == rest[k]);
            }
        }
    } else {
        assert(d[i] == schedules[i]);
        assert forall|a: int, b: int|
            0 <= a < d.len() && 0 <= b < d.len() && a != b implies d[a].id != d[b].id by {
            assert(d[a] == schedules[a]);
            assert(d[b] == schedules[b]);
        }
        lemma_reconcile_one_job(d, linked, now, i);
        assert(schedules.last().id != id);
        if needs_job(schedules.last(), linked, now) {
            assert(r.drop_last() =~= rest);
            assert forall|k: int| 0 <= k < r.len() && r[k].linked_id == Some(id) implies r[k]
                == first_job(schedules[i], now) by {
                if k < rest.len() {
                    assert(r[k] == rest[k]);
                }
            }
        }
    }
}

/// Claims due jobs against the set of ids claimed so far: each job whose id is new
/// is handed out once and its id recorded; a job whose id was seen is passed over.
pub open spec fn claim_spec(claimed: Set<u64>, due: Seq<Job>) -> (Seq<Job>, Set<u64>)
    decreases due.len(),
{
    if due.len() == 0 {
        (seq![], claimed)
    } else {
        let (out, seen) = claim_spec(claimed, due.drop_last());
        if seen.contains(due.last().id) {
            (out, seen)
        } else {
            (out.push(due.last()), seen.insert(due.last().id))
        }
    }
}

/// The dispatcher's memory of the jobs it has claimed, so that a job read again by a
/// later or an overlapping dispatch cycle is not processed a second time.
pub struct Scheduler {
    claimed: Vec<u64>,
}

impl View for Scheduler {
    type V = Set<u64>;

    closed spec fn view(&self) -> Set<u64> {
        self.claimed@.to_set()
    }
}

impl Scheduler {
    /// A scheduler that has claimed nothing yet.
    pub fn new() -> (r: Scheduler)
        ensures
            r@ == Set::<u64>::empty(),
    {
        let r = Scheduler { claimed: Vec::new() };
        assert(r@ =~= Set::<u64>::empty());
        r
    }

    /// Whether the job id was claimed before.
    pub fn has_claimed(&self, id: u64) -> (b: bool)
        ensures
            b == self@.contains(id),
    {
        contains_u64(&self.claimed, id)
    }

    /// Claims the due jobs of one cycle: returns, in order, those whose ids were not
    /// claimed before (each id once), and records their ids.
    pub fn claim(&mut self, due: &Vec<Job>) -> (r: Vec<Job>)
        ensures
            (r@, final(self)@) == claim_spec(old(self)@, due@),
    {
        let mut out: Vec<Job> = Vec::new();
        let mut i: usize = 0;
        while i < due.len()
            invariant
                0 <= i <= due.len(),
                (out@, self@) == claim_spec(old(self)@, due@.take(i as int)),
            decreases due.len() - i,
        {
            let j = due[i];
            assert(due@.take(i + 1).drop_last() =~= due@.take(i as int));
            assert(due@.take(i + 1).last() == j);
            if !contains_u64(&self.claimed, j.id) {
                let ghost before = self.claimed@;
                self.claimed.push(j.id);
                assert(self.claimed@ == before.push(j.id));
                assert forall|x: u64| self.claimed@.contains(x) <==> (before.contains(x) || x
                    == j.id) by {
                    if before.contains(x) {
                        let k = choose|k: int| 0 <= k < before.len() && before[k] == x;
                        assert(self.claimed@[k] == x);
                    }
                    if x == j.id {
                        assert(self.claimed@[before.len() as int] == x);
                    }
                    if self.claimed@.contains(x) {
                        let k = choose|k: int| 0 <= k < self.claimed@.len() && self.claimed@[k] == x;
                        if k < before.len() {
                            assert(before[k] == x);
                        }
                    }
                }
                assert(self.claimed@.to_set() =~= before.to_set().insert(j.id));
                out.push(j);
            }
            i = i + 1;
        }
        assert(due@.take(due@.len() as int) =~= due@);
        out
    }
}

proof fn lemma_claim_records(claimed: Set<u64>, due: Seq<Job>)
    ensures
        claimed.subset_of(claim_spec(claimed, due).1),
        forall|k: int|
            0 <= k < claim_spec(claimed, due).0.len() ==> claim_spec(claimed, due).1.contains(
                claim_spec(claimed, due).0[k].id,
            ) && !claimed.contains(claim_spec(claimed, due).0[k].id),
    decreases due.len(),
{
    if due.len() > 0 {
        lemma_claim_records(claimed, due.drop_last());
        let (out, seen) = claim_spec(claimed, due.drop_last());
        if !seen.contains(due.last().id) {
            let o2 = out.push(due.last());
            assert forall|k: int| 0 <= k < o2.len() implies seen.insert(due.last().id).contains(
                o2[k].id,
            ) && !claimed.contains(o2[k].id) by {
                if k < out.len() {
                    assert(o2[k] == out[k]);
                }
            }
        }
    }
}

proof fn lemma_claim_distinct(claimed: Set<u64>, due: Seq<Job>)
    ensures
        forall|a: int, b: int|
            0 <= a < b < claim_spec(claimed, due).0.len() ==> claim_spec(claimed, due).0[a].id
                != claim_spec(claimed, due).0[b].id,
    decreases due.len(),
{
    if due.len() > 0 {
        lemma_claim_distinct(claimed, due.drop_last());
        lemma_claim_records(claimed, due.drop_last());
        let (out, seen) = claim_spec(claimed, due.drop_last());
        if !seen.contains(due.last().id) {
            let o2 = out.push(due.last());
            assert forall|a: int, b: int| 0 <= a < b < o2.len() implies o2[a].id != o2[b].id by {
                assert(o2[a] == out[a]);
                if b < out.len() {
                    assert(o2[b] == out[b]);
                }
            }
        }
    }
}

/// A job handed out by one claim is handed out once: no other job of that claim has its
/// id, and no later claim hands it out again, whatever that later cycle reads as due.
pub proof fn lemma_claimed_once(claimed: Set<u64>, first: Seq<Job>, second: Seq<Job>)
    ensures
        forall|a: int, b: int|
            0 <= a < b < claim_spec(claimed, first).0.len() ==> claim_spec(claimed, first).0[a].id
                != claim_spec(claimed, first).0[b].id,
        forall|a: int, b: int|
            0 <= a < claim_spec(claimed, first).0.len() && 0 <= b < claim_spec(
                claim_spec(claimed, first).1,
                second,
            ).0.len() ==> claim_spec(claimed, first).0[a].id != claim_spec(
                claim_spec(claimed, first).1,
                second,
            ).0[b].id,
{
    lemma_claim_distinct(claimed, first);
    lemma_claim_records(claimed, first);
    lemma_claim_records(claim_spec(claimed, first).1, second);
}

/// What to do with a claimed job.
#[derive(Clone, Debug)]
pub enum JobPlan {
    /// The job's schedule cannot be found: nothing is checked, nothing is written,
    /// and no job is made in its place.
    Abandon,
    /// Check `target` with `method`, apply the verdict to schedule `schedule_id`, and
    /// store `next`, the schedule's next occurrence, if there is one.
    Check { schedule_id: i32, target: String, method: Method, next: Option<NewJob> },
}

/// The job that takes over from a claimed one: the schedule's next occurrence after
/// `now`, for an enabled schedule whose expression has one.
pub open spec fn next_job(s: Schedule, now: i64) -> Option<NewJob> {
    if s.enabled && next_run_spec(s.cron@, now) is Ok {
        Some(first_job(s, now))
    } else {
        None
    }
}

/// Decides what a claimed job calls for, given the schedule found under its
/// `linked_id` (`None` when the store has none).
pub fn plan_job(job: &Job, schedule: Option<&Schedule>, now: i64) -> (r: JobPlan)
    requires
        in_time_range(now),
    ensures
        match schedule {
            Some(s) if job.linked_id == Some(s.id) => match r {
                JobPlan::Check { schedule_id, target, method, next } => schedule_id == s.id
                    && target@ == s.target@ && method == s.method && next == next_job(*s, now),
                JobPlan::Abandon => false,
            },
            _ => r is Abandon,
        },
{
    match job.job_type {
        JobType::Monitoring => match schedule {
            Some(s) => {
                if job.linked_id != Some(s.id) {
                    return JobPlan::Abandon;
                }
                let next = if s.enabled {
                    match next_run(s.cron.as_str(), now) {
                        Ok(x) => Some(
                            NewJob { job_type: JobType::Monitoring, run_at: x, linked_id: Some(s.id) },
                        ),
                        Err(_) => None,
                    }
                } else {
                    None
                };
                JobPlan::Check { schedule_id: s.id, target: s.target.clone(), method: s.method, next }
            },
            None => JobPlan::Abandon,
        },
    }
}

/// The status write, if any, that the outcome of a check of `schedule` calls for.
pub fn status_after_check(schedule: &Schedule, outcome: &HttpOutcome) -> (r: Option<StatusWrite>)
    ensures
        opt_write_view(r) == planned_write(
            schedule@,
            verdict_spec(*outcome).0,
            verdict_spec(*outcome).1,
        ),
{
    let (is_up, reason) = http_verdict(outcome);
    status_update(schedule, is_up, reason)
}

} // verus!
