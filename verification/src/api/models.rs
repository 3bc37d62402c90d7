//! CircleCI pipelines, workflows and jobs. Timestamps are seconds since the
//! Unix epoch (UTC).

use vstd::prelude::*;
use crate::text::{concat, decimal, owned, signed_decimal, str_eq, u64_to_string, i128_to_string};

verus! {

/// A copy of an optional string.
pub fn clone_opt_string(s: &Option<String>) -> (r: Option<String>)
    ensures
        r == *s,
{
    match s {
        Some(v) => Some(v.clone()),
        None => None,
    }
}

/// Version control details of a pipeline.
pub struct VcsInfo {
    pub branch: String,
    pub revision: String,
    pub commit_subject: String,
    pub commit_author_name: String,
    pub commit_timestamp: i64,
}

impl Clone for VcsInfo {
    fn clone(&self) -> (r: Self)
        ensures
            r == *self,
    {
        VcsInfo {
            branch: self.branch.clone(),
            revision: self.revision.clone(),
            commit_subject: self.commit_subject.clone(),
            commit_author_name: self.commit_author_name.clone(),
            commit_timestamp: self.commit_timestamp,
        }
    }
}

/// What triggered a pipeline: webhook, scheduled or api.
pub struct TriggerInfo {
    pub trigger_type: String,
}

impl Clone for TriggerInfo {
    fn clone(&self) -> (r: Self)
        ensures
            r == *self,
    {
        TriggerInfo { trigger_type: self.trigger_type.clone() }
    }
}

/// A pipeline run.
pub struct Pipeline {
    pub id: String,
    pub number: u32,
    pub state: String,
    pub created_at: i64,
    pub updated_at: i64,
    pub vcs: VcsInfo,
    pub trigger: TriggerInfo,
    pub project_slug: String,
}

impl Clone for Pipeline {
    fn clone(&self) -> (r: Self)
        ensures
            r == *self,
    {
        Pipeline {
            id: self.id.clone(),
            number: self.number,
            state: self.state.clone(),
            created_at: self.created_at,
            updated_at: self.updated_at,
            vcs: self.vcs.clone(),
            trigger: self.trigger.clone(),
            project_slug: self.project_slug.clone(),
        }
    }
}

/// A workflow of a pipeline.
pub struct Workflow {
    pub id: String,
    pub name: String,
    pub status: String,
    pub created_at: i64,
    pub stopped_at: Option<i64>,
    pub pipeline_id: String,
}

impl Clone for Workflow {
    fn clone(&self) -> (r: Self)
        ensures
            r == *self,
    {
        Workflow {
            id: self.id.clone(),
            name: self.name.clone(),
            status: self.status.clone(),
            created_at: self.created_at,
            stopped_at: self.stopped_at,
            pipeline_id: self.pipeline_id.clone(),
        }
    }
}

/// The machine a job runs on: docker, machine, ...
pub struct ExecutorInfo {
    pub executor_type: String,
}

impl Clone for ExecutorInfo {
    fn clone(&self) -> (r: Self)
        ensures
            r == *self,
    {
        ExecutorInfo { executor_type: self.executor_type.clone() }
    }
}

/// A job of a workflow.
pub struct Job {
    pub id: String,
    pub name: String,
    pub status: String,
    pub job_number: u32,
    pub workflow_id: String,
    pub started_at: Option<i64>,
    pub stopped_at: Option<i64>,
    /// Run time in seconds, once known.
    pub duration: Option<u32>,
    pub executor: ExecutorInfo,
}

impl Clone for Job {
    fn clone(&self) -> (r: Self)
        ensures
            r == *self,
    {
        Job {
            id: self.id.clone(),
            name: self.name.clone(),
            status: self.status.clone(),
            job_number: self.job_number,
            workflow_id: self.workflow_id.clone(),
            started_at: self.started_at,
            stopped_at: self.stopped_at,
            duration: self.duration,
            executor: self.executor.clone(),
        }
    }
}

/// One action of a job step, with where its output can be fetched.
pub struct StepAction {
    pub name: String,
    pub status: String,
    pub output_url: Option<String>,
    pub index: usize,
}

/// A step of a job.
pub struct JobStep {
    pub name: String,
    pub status: String,
    pub actions: Vec<StepAction>,
}

/// A duration of `secs` seconds as shown for workflows and jobs:
/// "42s", "3m 5s" or "2h 10m".
pub open spec fn duration_text(secs: int) -> Seq<char> {
    if secs < 60 {
        signed_decimal(secs) + "s"@
    } else if secs < 3600 {
        decimal((secs / 60) as nat) + "m "@ + decimal((secs % 60) as nat) + "s"@
    } else {
        decimal((secs / 3600) as nat) + "h "@ + decimal(((secs % 3600) / 60) as nat) + "m"@
    }
}

/// A pipeline's duration of `secs` seconds (never negative): "42s", "3m",
/// "3m 5s" or "2h 10m".
pub open spec fn pipeline_duration_text(secs: nat) -> Seq<char> {
    if secs < 60 {
        decimal(secs) + "s"@
    } else if secs < 3600 {
        if secs % 60 > 0 {
            decimal(secs / 60) + "m "@ + decimal(secs % 60) + "s"@
        } else {
            decimal(secs / 60) + "m"@
        }
    } else {
        decimal(secs / 3600) + "h "@ + decimal((secs % 3600) / 60) + "m"@
    }
}

/// How a workflow or job duration is shown, by what the numbers mean:
/// under a minute, its seconds; under an hour, "Mm Ss" where M minutes and
/// S seconds (S < 60) make up the duration exactly; from an hour on,
/// "Hh Mm" where H hours and M minutes (M < 60) account for the duration
/// to within a minute.
pub proof fn law_duration_text_accounts(secs: int)
    ensures
        secs < 60 ==> duration_text(secs) == signed_decimal(secs) + "s"@,
        forall|m: nat, sec: nat|
            #![trigger decimal(m), decimal(sec)]
            60 <= secs < 3600 && sec < 60 && m * 60 + sec == secs ==> duration_text(secs) == decimal(m) + "m "@
                + decimal(sec) + "s"@,
        forall|h: nat, m: nat|
            #![trigger decimal(h), decimal(m)]
            secs >= 3600 && m < 60 && h * 3600 + m * 60 <= secs < h * 3600 + (m + 1) * 60 ==> duration_text(secs)
                == decimal(h) + "h "@ + decimal(m) + "m"@,
{
    assert forall|m: nat, sec: nat|
        #![trigger decimal(m), decimal(sec)]
        60 <= secs < 3600 && sec < 60 && m * 60 + sec == secs implies duration_text(secs) == decimal(m) + "m "@
            + decimal(sec) + "s"@ by {
        vstd::arithmetic::div_mod::lemma_fundamental_div_mod_converse(secs, 60, m as int, sec as int);
    }
    assert forall|h: nat, m: nat|
        #![trigger decimal(h), decimal(m)]
        secs >= 3600 && m < 60 && h * 3600 + m * 60 <= secs < h * 3600 + (m + 1) * 60 implies duration_text(secs)
            == decimal(h) + "h "@ + decimal(m) + "m"@ by {
        let r = secs - h * 3600;
        assert(0 <= r < 3600);
        vstd::arithmetic::div_mod::lemma_fundamental_div_mod_converse(secs, 3600, h as int, r);
        let sec = r - m * 60;
        assert(0 <= sec < 60);
        vstd::arithmetic::div_mod::lemma_fundamental_div_mod_converse(r, 60, m as int, sec);
    }
}

/// How a pipeline's duration is shown: under a minute, its seconds; under
/// an hour, "Mm" when M minutes make it up exactly, else "Mm Ss" with
/// 0 < S < 60 and M*60 + S the duration; from an hour on, "Hh Mm" where
/// H hours and M minutes (M < 60) account for it to within a minute.
pub proof fn law_pipeline_duration_text_accounts(secs: nat)
    ensures
        secs < 60 ==> pipeline_duration_text(secs) == decimal(secs) + "s"@,
        forall|m: nat, sec: nat|
            #![trigger decimal(m), decimal(sec)]
            60 <= secs < 3600 && 0 < sec < 60 && m * 60 + sec == secs ==> pipeline_duration_text(secs)
                == decimal(m) + "m "@ + decimal(sec) + "s"@,
        forall|m: nat|
            60 <= secs < 3600 && m * 60 == secs ==> #[trigger] pipeline_duration_text(secs) == decimal(m) + "m"@,
        forall|h: nat, m: nat|
            #![trigger decimal(h), decimal(m)]
            secs >= 3600 && m < 60 && h * 3600 + m * 60 <= secs < h * 3600 + (m + 1) * 60
                ==> pipeline_duration_text(secs) == decimal(h) + "h "@ + decimal(m) + "m"@,
{
    assert forall|m: nat, sec: nat|
        #![trigger decimal(m), decimal(sec)]
        60 <= secs < 3600 && 0 < sec < 60 && m * 60 + sec == secs implies pipeline_duration_text(secs)
            == decimal(m) + "m "@ + decimal(sec) + "s"@ by {
        vstd::arithmetic::div_mod::lemma_fundamental_div_mod_converse(secs as int, 60, m as int, sec as int);
    }
    assert forall|m: nat| 60 <= secs < 3600 && m * 60 == secs implies #[trigger] pipeline_duration_text(secs)
        == decimal(m) + "m"@ by {
        vstd::arithmetic::div_mod::lemma_fundamental_div_mod_converse(secs as int, 60, m as int, 0);
    }
    assert forall|h: nat, m: nat|
        #![trigger decimal(h), decimal(m)]
        secs >= 3600 && m < 60 && h * 3600 + m * 60 <= secs < h * 3600 + (m + 1) * 60
            implies pipeline_duration_text(secs) == decimal(h) + "h "@ + decimal(m) + "m"@ by {
        let r = secs - h * 3600;
        vstd::arithmetic::div_mod::lemma_fundamental_div_mod_converse(secs as int, 3600, h as int, r);
        let sec = r - m * 60;
        vstd::arithmetic::div_mod::lemma_fundamental_div_mod_converse(r, 60, m as int, sec);
    }
}

/// Formats a duration as `duration_text` does.
pub fn format_duration_secs(secs: i128) -> (r: String)
    requires
        -0x1_0000_0000_0000_0000 < secs < 0x1_0000_0000_0000_0000,
    ensures
        r@ == duration_text(secs as int),
{
    if secs < 60 {
        let n = i128_to_string(secs);
        concat(n.as_str(), "s")
    } else if secs < 3600 {
        let m = u64_to_string((secs / 60) as u64);
        let s = u64_to_string((secs % 60) as u64);
        let a = concat(m.as_str(), "m ");
        let b = concat(a.as_str(), s.as_str());
        concat(b.as_str(), "s")
    } else {
        let h = u64_to_string((secs / 3600) as u64);
        let m = u64_to_string(((secs % 3600) / 60) as u64);
        let a = concat(h.as_str(), "h ");
        let b = concat(a.as_str(), m.as_str());
        concat(b.as_str(), "m")
    }
}

/// Formats a pipeline duration as `pipeline_duration_text` does.
pub fn format_pipeline_duration(secs: u64) -> (r: String)
    ensures
        r@ == pipeline_duration_text(secs as nat),
{
    if secs < 60 {
        let n = u64_to_string(secs);
        concat(n.as_str(), "s")
    } else if secs < 3600 {
        let m = u64_to_string(secs / 60);
        if secs % 60 > 0 {
            let s = u64_to_string(secs % 60);
            let a = concat(m.as_str(), "m ");
            let b = concat(a.as_str(), s.as_str());
            concat(b.as_str(), "s")
        } else {
            concat(m.as_str(), "m")
        }
    } else {
        let h = u64_to_string(secs / 3600);
        let m = u64_to_string((secs % 3600) / 60);
        let a = concat(h.as_str(), "h ");
        let b = concat(a.as_str(), m.as_str());
        concat(b.as_str(), "m")
    }
}

/// Earliest creation time among `wfs`.
pub open spec fn earliest_created(wfs: Seq<Workflow>) -> int
    decreases wfs.len(),
{
    if wfs.len() <= 1 {
        if wfs.len() == 1 { wfs[0].created_at as int } else { 0 }
    } else {
        let rest = earliest_created(wfs.drop_last());
        if (wfs.last().created_at as int) < rest { wfs.last().created_at as int } else { rest }
    }
}

/// Latest stop time among the stopped workflows of `wfs`, if any stopped.
pub open spec fn latest_stopped(wfs: Seq<Workflow>) -> Option<int>
    decreases wfs.len(),
{
    if wfs.len() == 0 {
        None
    } else {
        let rest = latest_stopped(wfs.drop_last());
        match wfs.last().stopped_at {
            Some(t) => match rest {
                Some(r) => Some(if (t as int) > r { t as int } else { r }),
                None => Some(t as int),
            },
            None => rest,
        }
    }
}

/// What a pipeline shows as its duration: "--" while its workflows are
/// unknown or there are none, "..." while none has stopped, otherwise the
/// span from the earliest workflow start to the latest workflow stop.
pub open spec fn pipeline_span_text(workflows: Option<Seq<Workflow>>) -> Seq<char> {
    match workflows {
        None => "--"@,
        Some(wfs) => if wfs.len() == 0 {
            "--"@
        } else {
            match latest_stopped(wfs) {
                Some(stop) => pipeline_duration_text(
                    if stop - earliest_created(wfs) > 0 { (stop - earliest_created(wfs)) as nat } else { 0 },
                ),
                None => "..."@,
            }
        },
    }
}

impl Pipeline {
    /// The pipeline's duration from its workflows: from the earliest
    /// workflow start to the latest workflow stop.
    pub fn calculate_duration_from_workflows(&self, workflows: Option<&Vec<Workflow>>) -> (r: String)
        ensures
            r@ == pipeline_span_text(
                match workflows {
                    Some(w) => Some(w@),
                    None => None,
                },
            ),
    {
        match workflows {
            None => owned("--"),
            Some(wfs) => {
                if wfs.len() == 0 {
                    return owned("--");
                }
                let mut earliest: i64 = wfs[0].created_at;
                let mut latest: Option<i64> = wfs[0].stopped_at;
                let mut i: usize = 1;
                assert(wfs@.take(1).drop_last() =~= Seq::<Workflow>::empty());
                assert(wfs@.take(1).last() == wfs@[0]);
                assert(latest_stopped(Seq::<Workflow>::empty()) is None);
                while i < wfs.len()
                    invariant
                        1 <= i <= wfs@.len(),
                        earliest as int == earliest_created(wfs@.take(i as int)),
                        match latest {
                            Some(t) => latest_stopped(wfs@.take(i as int)) == Some(t as int),
                            None => latest_stopped(wfs@.take(i as int)) is None,
                        },
                    decreases wfs@.len() - i,
                {
                    assert(wfs@.take(i + 1).drop_last() =~= wfs@.take(i as int));
                    let w = &wfs[i];
                    if w.created_at < earliest {
                        earliest = w.created_at;
                    }
                    match w.stopped_at {
                        Some(t) => {
                            latest = match latest {
                                Some(l) => Some(if t > l { t } else { l }),
                                None => Some(t),
                            };
                        },
                        None => {},
                    }
                    i = i + 1;
                }
                assert(wfs@.take(i as int) =~= wfs@);
                match latest {
                    Some(stop) => {
                        let diff = stop as i128 - earliest as i128;
                        let secs: u64 = if diff > 0 { diff as u64 } else { 0 };
                        format_pipeline_duration(secs)
                    },
                    None => owned("..."),
                }
            },
        }
    }
}

/// What a workflow shows as its duration: the time from creation to stop,
/// or "running..." while it has not stopped.
pub open spec fn workflow_duration_text(w: Workflow) -> Seq<char> {
    match w.stopped_at {
        Some(stop) => duration_text(stop - w.created_at),
        None => "running..."@,
    }
}

impl Workflow {
    /// The workflow's duration as text.
    pub fn duration_formatted(&self) -> (r: String)
        ensures
            r@ == workflow_duration_text(*self),
    {
        match self.stopped_at {
            Some(stopped) => format_duration_secs(stopped as i128 - self.created_at as i128),
            None => owned("running..."),
        }
    }
}

/// What a job shows as its duration: its run time, "running..." once
/// started, otherwise "pending".
pub open spec fn job_duration_text(j: Job) -> Seq<char> {
    match j.duration {
        Some(secs) => duration_text(secs as int),
        None => if j.started_at is Some {
            "running..."@
        } else {
            "pending"@
        },
    }
}

impl Job {
    /// The job's duration as text.
    pub fn duration_formatted(&self) -> (r: String)
        ensures
            r@ == job_duration_text(*self),
    {
        match self.duration {
            Some(secs) => format_duration_secs(secs as i128),
            None => {
                if self.started_at.is_some() {
                    owned("running...")
                } else {
                    owned("pending")
                }
            },
        }
    }

    /// Whether the job is running: its status is "running" and it has not stopped.
    pub fn is_running(&self) -> (r: bool)
        ensures
            r == (self.status@ == "running"@ && self.stopped_at is None),
    {
        str_eq(self.status.as_str(), "running") && self.stopped_at.is_none()
    }
}

} // verus!
