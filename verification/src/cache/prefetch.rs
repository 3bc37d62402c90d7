//! Which job logs to fetch ahead while the user browses jobs. Running the
//! fetches is left to the caller.

use vstd::prelude::*;
use crate::api::error::ApiError;
use crate::api::models::Job;
use crate::text::{owned, str_eq};

verus! {

/// The outcome of fetching one job's log ahead.
pub struct PrefetchResult {
    pub job_number: u32,
    pub result: Result<Vec<String>, ApiError>,
}

/// The status of the first job with number `n`; "unknown" when none has it.
pub open spec fn status_of(jobs: Seq<Job>, n: u32) -> Seq<char>
    decreases jobs.len(),
{
    if jobs.len() == 0 {
        "unknown"@
    } else if jobs[0].job_number == n {
        jobs[0].status@
    } else {
        status_of(jobs.drop_first(), n)
    }
}

/// The fetches to start for the jobs `wanted`, in order, each with its
/// job's status: a job already being fetched, or already started earlier
/// in the list, is skipped.
pub open spec fn planned(wanted: Seq<u32>, jobs: Seq<Job>, active: Seq<u32>) -> Seq<(u32, Seq<char>)>
    decreases wanted.len(),
{
    if wanted.len() == 0 {
        seq![]
    } else {
        let before = planned(wanted.drop_last(), jobs, active);
        let n = wanted.last();
        if active.contains(n) || wanted.drop_last().contains(n) {
            before
        } else {
            before.push((n, status_of(jobs, n)))
        }
    }
}

/// The planned fetches are the wanted jobs that are not already being
/// fetched, each once: every planned job was wanted and is not active, no
/// job is planned twice, every wanted job that is not active is planned,
/// and each goes with its job's status.
pub proof fn law_prefetch_plan(wanted: Seq<u32>, jobs: Seq<Job>, active: Seq<u32>)
    ensures
        forall|k: int|
            0 <= k < planned(wanted, jobs, active).len() ==> wanted.contains(
                (#[trigger] planned(wanted, jobs, active)[k]).0,
            ) && !active.contains(planned(wanted, jobs, active)[k].0) && planned(wanted, jobs, active)[k].1
                == status_of(jobs, planned(wanted, jobs, active)[k].0),
        forall|i: int, j: int|
            0 <= i < j < planned(wanted, jobs, active).len() ==> (#[trigger] planned(wanted, jobs, active)[i]).0
                != (#[trigger] planned(wanted, jobs, active)[j]).0,
        forall|n: u32|
            wanted.contains(n) && !active.contains(n) ==> exists|k: int|
                0 <= k < planned(wanted, jobs, active).len() && (#[trigger] planned(wanted, jobs, active)[k]).0
                    == n,
    decreases wanted.len(),
{
    if wanted.len() > 0 {
        let front = wanted.drop_last();
        law_prefetch_plan(front, jobs, active);
        let before = planned(front, jobs, active);
        let n = wanted.last();
        assert forall|m: u32| front.contains(m) implies wanted.contains(m) by {
            let i = choose|i: int| 0 <= i < front.len() && front[i] == m;
            assert(wanted[i] == m);
        }
        assert(wanted.contains(n)) by {
            assert(wanted[wanted.len() - 1] == n);
        }
        assert forall|m: u32| wanted.contains(m) && !active.contains(m) implies exists|k: int|
            0 <= k < planned(wanted, jobs, active).len() && (#[trigger] planned(wanted, jobs, active)[k]).0 == m by {
            let i = choose|i: int| 0 <= i < wanted.len() && wanted[i] == m;
            if i < wanted.len() - 1 {
                assert(front[i] == m);
                let k = choose|k: int| 0 <= k < before.len() && (#[trigger] before[k]).0 == m;
                assert(planned(wanted, jobs, active)[k] == before[k]);
            } else if front.contains(m) {
                let k = choose|k: int| 0 <= k < before.len() && (#[trigger] before[k]).0 == m;
                assert(planned(wanted, jobs, active)[k] == before[k]);
            } else {
                assert(planned(wanted, jobs, active)[before.len() as int].0 == m);
            }
        }
        if !(active.contains(n) || front.contains(n)) {
            assert forall|k: int| 0 <= k < before.len() implies (#[trigger] before[k]).0 != n by {
                if before[k].0 == n {
                    assert(front.contains(n));
                }
            }
        }
    }
}

/// The status of the first job with number `n`; "unknown" when none has it.
pub fn job_status_of(jobs: &Vec<Job>, n: u32) -> (r: String)
    ensures
        r@ == status_of(jobs@, n),
{
    let mut i: usize = 0;
    assert(jobs@.skip(0) =~= jobs@);
    while i < jobs.len()
        invariant
            i <= jobs@.len(),
            status_of(jobs@, n) == status_of(jobs@.skip(i as int), n),
        decreases jobs@.len() - i,
    {
        assert(jobs@.skip(i as int).drop_first() =~= jobs@.skip(i + 1));
        assert(jobs@.skip(i as int)[0] == jobs@[i as int]);
        if jobs[i].job_number == n {
            return jobs[i].status.clone();
        }
        i = i + 1;
    }
    assert(jobs@.skip(i as int).len() == 0);
    owned("unknown")
}

fn contains_u32(v: &Vec<u32>, n: u32) -> (r: bool)
    ensures
        r == v@.contains(n),
{
    let mut i: usize = 0;
    while i < v.len()
        invariant
            i <= v@.len(),
            forall|j: int| 0 <= j < i ==> v@[j] != n,
        decreases v@.len() - i,
    {
        if v[i] == n {
            return true;
        }
        i = i + 1;
    }
    false
}

/// The fetches to start for the jobs `wanted` while those in `active` are
/// being fetched.
pub fn plan_prefetch(wanted: &Vec<u32>, jobs: &Vec<Job>, active: &Vec<u32>) -> (r: Vec<(u32, String)>)
    ensures
        r@.map_values(|p: (u32, String)| (p.0, p.1@)) == planned(wanted@, jobs@, active@),
{
    let mut r: Vec<(u32, String)> = Vec::new();
    let mut seen: Vec<u32> = Vec::new();
    let mut i: usize = 0;
    assert(seen@ =~= wanted@.take(0));
    while i < wanted.len()
        invariant
            i <= wanted@.len(),
            seen@ == wanted@.take(i as int),
            r@.map_values(|p: (u32, String)| (p.0, p.1@)) == planned(wanted@.take(i as int), jobs@, active@),
        decreases wanted@.len() - i,
    {
        let n = wanted[i];
        let ghost t = wanted@.take(i + 1);
        assert(t.drop_last() =~= wanted@.take(i as int));
        assert(t.last() == n);
        let ghost before = r@.map_values(|p: (u32, String)| (p.0, p.1@));
        if !contains_u32(active, n) && !contains_u32(&seen, n) {
            let status = job_status_of(jobs, n);
            r.push((n, status));
            assert(r@.map_values(|p: (u32, String)| (p.0, p.1@)) =~= before.push((n, status_of(jobs@, n))));
        }
        seen.push(n);
        i = i + 1;
        assert(seen@ =~= wanted@.take(i as int));
    }
    assert(wanted@.take(i as int) =~= wanted@);
    r
}

/// Whether a job's log is worth fetching ahead: not for jobs that have not
/// started (pending or blocked).
pub fn should_prefetch(status: &str) -> (r: bool)
    ensures
        r == !(status@ == "pending"@ || status@ == "blocked"@),
{
    !(str_eq(status, "pending") || str_eq(status, "blocked"))
}

/// Whether a job's log may come from, or go to, the cache: not while the
/// job runs.
pub fn may_use_cache(status: &str) -> (r: bool)
    ensures
        r == (status@ != "running"@),
{
    !str_eq(status, "running")
}

/// The jobs fetched for before that are no longer around the selection.
pub fn jobs_to_cancel(previous: &Vec<u32>, visible: &Vec<u32>) -> (r: Vec<u32>)
    ensures
        r@ == previous@.filter(|n: u32| !visible@.contains(n)),
{
    let mut r: Vec<u32> = Vec::new();
    let mut i: usize = 0;
    while i < previous.len()
        invariant
            i <= previous@.len(),
            r@ == previous@.take(i as int).filter(|n: u32| !visible@.contains(n)),
        decreases previous@.len() - i,
    {
        let n = previous[i];
        proof {
            let t = previous@.take(i + 1);
            assert(t.drop_last() =~= previous@.take(i as int));
            reveal(Seq::filter);
        }
        if !contains_u32(visible, n) {
            r.push(n);
        }
        i = i + 1;
    }
    assert(previous@.take(i as int) =~= previous@);
    r
}

/// A prefetch plan starts at most one fetch per job, none for a job that
/// is already being fetched and none for a job that was not wanted; every
/// wanted job that is not being fetched gets one.
pub proof fn law_plan_fetches_each_job_once(wanted: Seq<u32>, jobs: Seq<Job>, active: Seq<u32>)
    ensures
        forall|i: int, j: int|
            #![trigger planned(wanted, jobs, active)[i], planned(wanted, jobs, active)[j]]
            0 <= i < j < planned(wanted, jobs, active).len() ==> planned(wanted, jobs, active)[i].0
                != planned(wanted, jobs, active)[j].0,
        forall|i: int|
            0 <= i < planned(wanted, jobs, active).len() ==> wanted.contains(#[trigger] planned(wanted, jobs, active)[i].0)
                && !active.contains(planned(wanted, jobs, active)[i].0),
        forall|n: u32|
            #![trigger wanted.contains(n)]
            wanted.contains(n) && !active.contains(n) ==> exists|i: int|
                0 <= i < planned(wanted, jobs, active).len() && #[trigger] planned(wanted, jobs, active)[i].0 == n,
    decreases wanted.len(),
{
    if wanted.len() > 0 {
        let w0 = wanted.drop_last();
        let n = wanted.last();
        law_plan_fetches_each_job_once(w0, jobs, active);
        let before = planned(w0, jobs, active);
        let p = planned(wanted, jobs, active);
        assert forall|k: int| 0 <= k < before.len() implies wanted.contains(#[trigger] before[k].0) by {
            let x = before[k].0;
            assert(w0.contains(x));
            let t = choose|t: int| 0 <= t < w0.len() && w0[t] == x;
            assert(wanted[t] == x);
        }
        assert(wanted[wanted.len() - 1] == n);
        assert forall|m: u32| wanted.contains(m) && !active.contains(m) implies exists|i: int|
            0 <= i < p.len() && #[trigger] p[i].0 == m by {
            let t = choose|t: int| 0 <= t < wanted.len() && wanted[t] == m;
            if t < wanted.len() - 1 {
                assert(w0[t] == m);
                assert(w0.contains(m));
                let i = choose|i: int| 0 <= i < before.len() && #[trigger] before[i].0 == m;
                assert(p[i] == before[i]);
            } else if w0.contains(m) {
                let i = choose|i: int| 0 <= i < before.len() && #[trigger] before[i].0 == m;
                assert(p[i] == before[i]);
            } else {
                assert(p[before.len() as int].0 == m);
            }
        }
    }
}

} // verus!
