//! Jobs: status labels, completion counts, run durations, summaries and details.
use std::collections::BTreeMap;

use vstd::prelude::*;

use crate::calendar::{decimal_digits, int_text, push_decimal, push_int};
use crate::model::{
    clone_opt, clone_time_text, map_or_empty, opt_map, opt_text, opt_texts, opt_view,
    strings_or_empty, text_or_empty, texts, time_text, ConditionInfo, ContainerInfo,
    ObjectMetaInfo, TimeInfo,
};
use crate::text::str_eq;

verus! {

/// The spec of a job.
#[derive(Clone, Debug, Default)]
pub struct JobSpecInfo {
    pub completions: Option<i32>,
    pub backoff_limit: Option<i32>,
    pub active_deadline_seconds: Option<i64>,
    /// The template's containers; `None` when the template has no pod spec.
    pub containers: Option<Vec<ContainerInfo>>,
}

/// The status of a job.
#[derive(Clone, Debug, Default)]
pub struct JobStatusInfo {
    pub succeeded: Option<i32>,
    pub start_time: Option<TimeInfo>,
    pub completion_time: Option<TimeInfo>,
    pub conditions: Option<Vec<ConditionInfo>>,
}

/// A job.
#[derive(Clone, Debug, Default)]
pub struct JobInfo {
    pub metadata: ObjectMetaInfo,
    pub spec: Option<JobSpecInfo>,
    pub status: Option<JobStatusInfo>,
}

/// A job at a glance.
#[derive(Clone, Debug)]
pub struct JobSummary {
    pub name: String,
    pub namespace: String,
    pub status: String,
    pub completions: String,
    pub start_time: Option<String>,
    pub completion_time: Option<String>,
    pub duration: Option<String>,
    pub created_at: Option<String>,
    pub labels: BTreeMap<String, String>,
}

/// A condition of a job.
#[derive(Clone, Debug)]
pub struct JobConditionSummary {
    pub condition_type: String,
    pub status: String,
    pub reason: Option<String>,
    pub message: Option<String>,
    pub last_transition: Option<String>,
}

/// A job in detail.
#[derive(Clone, Debug)]
pub struct JobDetail {
    pub name: String,
    pub namespace: String,
    pub status: String,
    pub completions: String,
    pub start_time: Option<String>,
    pub completion_time: Option<String>,
    pub duration: Option<String>,
    pub created_at: Option<String>,
    pub labels: BTreeMap<String, String>,
    pub annotations: BTreeMap<String, String>,
    pub conditions: Vec<JobConditionSummary>,
    pub image: String,
    pub command: Vec<String>,
    pub backoff_limit: Option<i32>,
    pub active_deadline_seconds: Option<i64>,
}

/// The status conditions of a job.
pub open spec fn conditions_of(job: JobInfo) -> Seq<ConditionInfo> {
    match job.status {
        Some(st) => match st.conditions {
            Some(c) => c@,
            None => Seq::empty(),
        },
        None => Seq::empty(),
    }
}

/// The label of the first decisive condition among `conds`: a true
/// `Complete` means `Succeeded`, a true `Failed` means `Failed`; with none
/// the job is `Active`.
pub open spec fn state_label(conds: Seq<ConditionInfo>) -> Seq<char>
    decreases conds.len(),
{
    if conds.len() == 0 {
        "Active"@
    } else if conds[0].type_@ == "Complete"@ && conds[0].status@ == "True"@ {
        "Succeeded"@
    } else if conds[0].type_@ == "Failed"@ && conds[0].status@ == "True"@ {
        "Failed"@
    } else {
        state_label(conds.drop_first())
    }
}

/// The status label of a job.
pub open spec fn job_status_of(job: JobInfo) -> Seq<char> {
    state_label(conditions_of(job))
}

/// `succeeded/total`: total defaults to 1, succeeded to 0.
pub open spec fn completions_of(job: JobInfo) -> Seq<char> {
    let total: i32 = match job.spec {
        Some(s) => match s.completions {
            Some(c) => c,
            None => 1,
        },
        None => 1,
    };
    let succeeded: i32 = match job.status {
        Some(st) => match st.succeeded {
            Some(n) => n,
            None => 0,
        },
        None => 0,
    };
    int_text(succeeded as int) + "/"@ + int_text(total as int)
}

/// A run time in seconds as `Ns`, `NmNs` or `NhNmNs`.
pub open spec fn duration_text(secs: nat) -> Seq<char> {
    if secs < 60 {
        decimal_digits(secs) + "s"@
    } else if secs < 3600 {
        decimal_digits(secs / 60) + "m"@ + decimal_digits(secs % 60) + "s"@
    } else {
        decimal_digits(secs / 3600) + "h"@ + decimal_digits((secs % 3600) / 60) + "m"@
            + decimal_digits(secs % 60) + "s"@
    }
}

/// How long a finished job ran: absent unless it has both a start and a
/// completion time, and absent when it completed before it started.
pub open spec fn duration_of(job: JobInfo) -> Option<Seq<char>> {
    match job.status {
        Some(st) => match (st.start_time, st.completion_time) {
            (Some(start), Some(end)) => if end.seconds < start.seconds {
                None
            } else {
                Some(duration_text((end.seconds - start.seconds) as nat))
            },
            _ => None,
        },
        None => None,
    }
}

/// The first container of the job's pod template, if any.
pub open spec fn primary_container_of(job: JobInfo) -> Option<ContainerInfo> {
    match job.spec {
        Some(s) => match s.containers {
            Some(cs) => if cs@.len() > 0 {
                Some(cs@[0])
            } else {
                None
            },
            None => None,
        },
        None => None,
    }
}

/// When a job started and completed, as text.
pub open spec fn times_of(job: JobInfo) -> (Option<Seq<char>>, Option<Seq<char>>) {
    match job.status {
        Some(st) => (time_text(st.start_time), time_text(st.completion_time)),
        None => (None, None),
    }
}

/// `out` summarises `job`.
pub open spec fn is_job_summary(out: JobSummary, job: JobInfo) -> bool {
    &&& out.name@ == opt_text(job.metadata.name)
    &&& out.namespace@ == opt_text(job.metadata.namespace)
    &&& out.status@ == job_status_of(job)
    &&& out.completions@ == completions_of(job)
    &&& (opt_view(out.start_time), opt_view(out.completion_time)) == times_of(job)
    &&& opt_view(out.duration) == duration_of(job)
    &&& opt_view(out.created_at) == opt_view(job.metadata.creation_timestamp)
    &&& out.labels@ == opt_map(job.metadata.labels)
}

/// `out` copies condition `c`.
pub open spec fn is_condition_summary(out: JobConditionSummary, c: ConditionInfo) -> bool {
    &&& out.condition_type@ == c.type_@
    &&& out.status@ == c.status@
    &&& opt_view(out.reason) == opt_view(c.reason)
    &&& opt_view(out.message) == opt_view(c.message)
    &&& opt_view(out.last_transition) == opt_view(c.last_transition_time)
}

/// `out` describes `job` in detail.
pub open spec fn is_job_detail(out: JobDetail, job: JobInfo) -> bool {
    &&& out.name@ == opt_text(job.metadata.name)
    &&& out.namespace@ == opt_text(job.metadata.namespace)
    &&& out.status@ == job_status_of(job)
    &&& out.completions@ == completions_of(job)
    &&& (opt_view(out.start_time), opt_view(out.completion_time)) == times_of(job)
    &&& opt_view(out.duration) == duration_of(job)
    &&& opt_view(out.created_at) == opt_view(job.metadata.creation_timestamp)
    &&& out.labels@ == opt_map(job.metadata.labels)
    &&& out.annotations@ == opt_map(job.metadata.annotations)
    &&& out.conditions@.len() == conditions_of(job).len()
    &&& (forall|j: int|
        0 <= j < out.conditions@.len() ==> is_condition_summary(
            #[trigger] out.conditions@[j],
            conditions_of(job)[j],
        ))
    &&& out.image@ == (match primary_container_of(job) {
        Some(c) => opt_text(c.image),
        None => Seq::empty(),
    })
    &&& texts(out.command@) == (match primary_container_of(job) {
        Some(c) => opt_texts(c.command),
        None => Seq::empty(),
    })
    &&& out.backoff_limit == (match job.spec {
        Some(s) => s.backoff_limit,
        None => None,
    })
    &&& out.active_deadline_seconds == (match job.spec {
        Some(s) => s.active_deadline_seconds,
        None => None,
    })
}

fn string_of(s: &str) -> (r: String)
    ensures
        r@ == s@,
{
    String::from_str(s)
}

/// The status label of a job: `Succeeded`, `Failed` or `Active`.
pub fn job_status(job: &JobInfo) -> (r: String)
    ensures
        r@ == job_status_of(*job),
{
    proof {
        reveal_strlit("Active");
        reveal_strlit("Succeeded");
        reveal_strlit("Failed");
    }
    let st = match &job.status {
        Some(s) => s,
        None => return string_of("Active"),
    };
    if let Some(conds) = &st.conditions {
        let n = conds.len();
        let mut i: usize = 0;
        proof {
            assert(conds@.skip(0) =~= conds@);
        }
        while i < n
            invariant
                n == conds@.len(),
                i <= n,
                conds@ == conditions_of(*job),
                state_label(conds@) == state_label(conds@.skip(i as int)),
            decreases n - i,
        {
            proof {
                assert(conds@.skip(i as int).drop_first() =~= conds@.skip(i + 1));
                assert(conds@.skip(i as int)[0] == conds@[i as int]);
            }
            let c = &conds[i];
            if str_eq(c.type_.as_str(), "Complete") && str_eq(c.status.as_str(), "True") {
                return string_of("Succeeded");
            }
            if str_eq(c.type_.as_str(), "Failed") && str_eq(c.status.as_str(), "True") {
                return string_of("Failed");
            }
            i = i + 1;
        }
    }
    string_of("Active")
}

/// `succeeded/total` completions of a job.
pub fn job_completions_string(job: &JobInfo) -> (r: String)
    ensures
        r@ == completions_of(*job),
{
    let total: i32 = match &job.spec {
        Some(s) => match s.completions {
            Some(c) => c,
            None => 1,
        },
        None => 1,
    };
    let succeeded: i32 = match &job.status {
        Some(st) => match st.succeeded {
            Some(n) => n,
            None => 0,
        },
        None => 0,
    };
    let mut out = String::new();
    push_int(&mut out, succeeded as i64);
    out.append("/");
    push_int(&mut out, total as i64);
    proof {
        reveal_strlit("/");
        assert(out@ =~= completions_of(*job));
    }
    out
}

/// Formats a run time of `secs` seconds.
pub fn format_duration(secs: u64) -> (r: String)
    ensures
        r@ == duration_text(secs as nat),
{
    proof {
        reveal_strlit("s");
        reveal_strlit("m");
        reveal_strlit("h");
    }
    let mut out = String::new();
    if secs < 60 {
        push_decimal(&mut out, secs);
        out.append("s");
    } else if secs < 3600 {
        push_decimal(&mut out, secs / 60);
        out.append("m");
        push_decimal(&mut out, secs % 60);
        out.append("s");
    } else {
        push_decimal(&mut out, secs / 3600);
        out.append("h");
        push_decimal(&mut out, (secs % 3600) / 60);
        out.append("m");
        push_decimal(&mut out, secs % 60);
        out.append("s");
    }
    proof {
        assert(out@ =~= duration_text(secs as nat));
    }
    out
}

/// How long a finished job ran.
pub fn job_duration(job: &JobInfo) -> (r: Option<String>)
    ensures
        opt_view(r) == duration_of(*job),
{
    let st = match &job.status {
        Some(s) => s,
        None => return None,
    };
    match (&st.start_time, &st.completion_time) {
        (Some(start), Some(end)) => {
            if end.seconds < start.seconds {
                None
            } else {
                let diff: i128 = end.seconds as i128 - start.seconds as i128;
                Some(format_duration(diff as u64))
            }
        },
        _ => None,
    }
}

fn times(job: &JobInfo) -> (r: (Option<String>, Option<String>))
    ensures
        (opt_view(r.0), opt_view(r.1)) == times_of(*job),
{
    match &job.status {
        Some(st) => (clone_time_text(&st.start_time), clone_time_text(&st.completion_time)),
        None => (None, None),
    }
}

/// A job at a glance: status label, completions, timing and labels.
pub fn extract_summary(job: &JobInfo) -> (r: JobSummary)
    ensures
        is_job_summary(r, *job),
{
    let (start_time, completion_time) = times(job);
    JobSummary {
        name: text_or_empty(&job.metadata.name),
        namespace: text_or_empty(&job.metadata.namespace),
        status: job_status(job),
        completions: job_completions_string(job),
        start_time,
        completion_time,
        duration: job_duration(job),
        created_at: clone_opt(&job.metadata.creation_timestamp),
        labels: map_or_empty(&job.metadata.labels),
    }
}

fn condition_summaries(job: &JobInfo) -> (out: Vec<JobConditionSummary>)
    ensures
        out@.len() == conditions_of(*job).len(),
        forall|j: int|
            0 <= j < out@.len() ==> is_condition_summary(#[trigger] out@[j], conditions_of(*job)[j]),
{
    let mut out: Vec<JobConditionSummary> = Vec::new();
    if let Some(st) = &job.status {
        if let Some(conds) = &st.conditions {
            let n = conds.len();
            for i in 0..n
                invariant
                    n == conds@.len(),
                    conds@ == conditions_of(*job),
                    out@.len() == i,
                    forall|j: int| 0 <= j < i ==> is_condition_summary(#[trigger] out@[j], conds@[j]),
            {
                let c = &conds[i];
                out.push(
                    JobConditionSummary {
                        condition_type: c.type_.clone(),
                        status: c.status.clone(),
                        reason: clone_opt(&c.reason),
                        message: clone_opt(&c.message),
                        last_transition: clone_opt(&c.last_transition_time),
                    },
                );
            }
        }
    }
    out
}

fn primary_container(job: &JobInfo) -> (r: Option<&ContainerInfo>)
    ensures
        match r {
            Some(c) => primary_container_of(*job) == Some(*c),
            None => primary_container_of(*job) is None,
        },
{
    match &job.spec {
        Some(s) => match &s.containers {
            Some(cs) => if cs.len() > 0 {
                Some(&cs[0])
            } else {
                None
            },
            None => None,
        },
        None => None,
    }
}

/// A job in detail: the summary plus conditions, the primary container's
/// image and command, and its retry and deadline limits.
pub fn extract_detail(job: &JobInfo) -> (r: JobDetail)
    ensures
        is_job_detail(r, *job),
{
    let (start_time, completion_time) = times(job);
    let (image, command) = match primary_container(job) {
        Some(c) => (text_or_empty(&c.image), strings_or_empty(&c.command)),
        None => (String::new(), Vec::new()),
    };
    proof {
        if primary_container_of(*job) is None {
            assert(texts(command@) =~= Seq::<Seq<char>>::empty());
        }
    }
    let (backoff_limit, active_deadline_seconds) = match &job.spec {
        Some(s) => (s.backoff_limit, s.active_deadline_seconds),
        None => (None, None),
    };
    JobDetail {
        name: text_or_empty(&job.metadata.name),
        namespace: text_or_empty(&job.metadata.namespace),
        status: job_status(job),
        completions: job_completions_string(job),
        start_time,
        completion_time,
        duration: job_duration(job),
        created_at: clone_opt(&job.metadata.creation_timestamp),
        labels: map_or_empty(&job.metadata.labels),
        annotations: map_or_empty(&job.metadata.annotations),
        conditions: condition_summaries(job),
        image,
        command,
        backoff_limit,
        active_deadline_seconds,
    }
}

} // verus!
