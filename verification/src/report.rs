//! The report of failed jobs: for each, the command to reproduce it (the
//! first line its failed action printed, found from its steps), the end of
//! its log without terminal control sequences and a file with its whole
//! log, and a summary that asks for a fix of each. Fetching the steps and
//! logs and writing the files is left to the caller.

use vstd::prelude::*;
use crate::text::{chars_of, concat, joined_by, joined_lines, join_lines, join_with, owned, push_char, str_eq, trim, trim_of};
use crate::widgets::faceted_search::strings_view;
use crate::api::models::{JobStep, StepAction};
use crate::api::error::{ApiError, api_error_message};

verus! {

/// Lines of a log kept in the summary.
pub const SUMMARY_TAIL_LINES: usize = 150;

/// The report on one failed job.
pub struct FailedJobReport {
    pub name: String,
    /// The command that failed.
    pub reproduce: String,
    /// The last lines of its log.
    pub summary_logs: String,
    /// Its whole log.
    pub full_logs: String,
    /// The file its whole log goes to.
    pub full_filename: String,
}

/// `s` with every '/' replaced by '-'.
pub open spec fn slashes_to_dashes(s: Seq<char>) -> Seq<char> {
    s.map_values(|c: char| if c == '/' { '-' } else { c })
}

/// The last `n` lines of a log (all when fewer).
pub open spec fn tail(ls: Seq<Seq<char>>, n: nat) -> Seq<Seq<char>> {
    if ls.len() <= n { ls } else { ls.skip(ls.len() - n) }
}

/// `s` with every '/' replaced by '-'.
pub fn replace_slashes(s: &str) -> (r: String)
    ensures
        r@ == slashes_to_dashes(s@),
{
    let mut r = String::new();
    for c in it: s.chars()
        invariant
            it.seq() == s@,
            r@ == slashes_to_dashes(s@.take(it.index() as int)),
    {
        let d = if c == '/' { '-' } else { c };
        push_char(&mut r, d);
        assert(slashes_to_dashes(s@.take(it.index() + 1)) =~= slashes_to_dashes(s@.take(it.index() as int)).push(d));
    }
    assert(s@.take(s@.len() as int) =~= s@);
    r
}

/// The escape character that opens a terminal control sequence.
pub const ESC: char = '\u{1b}';

/// Whether `c` ends a control sequence (a final byte, '@' to '~').
pub open spec fn is_sequence_final(c: char) -> bool {
    '@' <= c && c <= '~'
}

/// What is left of `s` once its control sequences are taken out, read in
/// state `st`: 0 in plain text, 1 just after an escape, 2 inside a sequence
/// opened by escape and '['. Such a sequence runs to its final byte; an
/// escape not followed by '[' is kept, and a sequence left open at the end
/// is dropped.
pub open spec fn strip_sequences_from(s: Seq<char>, st: int) -> Seq<char>
    decreases s.len(),
{
    if s.len() == 0 {
        if st == 1 { seq![ESC] } else { Seq::empty() }
    } else {
        let c = s[0];
        let rest = s.drop_first();
        if st == 1 {
            if c == '[' {
                strip_sequences_from(rest, 2)
            } else if c == ESC {
                seq![ESC] + strip_sequences_from(rest, 1)
            } else {
                seq![ESC, c] + strip_sequences_from(rest, 0)
            }
        } else if st == 2 {
            if is_sequence_final(c) { strip_sequences_from(rest, 0) } else { strip_sequences_from(rest, 2) }
        } else {
            if c == ESC { strip_sequences_from(rest, 1) } else { seq![c] + strip_sequences_from(rest, 0) }
        }
    }
}

/// `s` without its terminal control sequences (colours and the like).
pub open spec fn strip_ansi(s: Seq<char>) -> Seq<char> {
    strip_sequences_from(s, 0)
}

/// Each line without its terminal control sequences.
pub open spec fn strip_all(ls: Seq<Seq<char>>) -> Seq<Seq<char>> {
    ls.map_values(|l: Seq<char>| strip_ansi(l))
}

/// `s` without its terminal control sequences.
pub fn strip_ansi_codes(s: &str) -> (r: String)
    ensures
        r@ == strip_ansi(s@),
{
    let mut r = String::new();
    let mut st: u8 = 0;
    let cs = chars_of(s);
    let n = cs.len();
    let mut i: usize = 0;
    assert(s@.skip(0) =~= s@);
    while i < n
        invariant
            cs@ == s@,
            n == s@.len(),
            i <= n,
            st <= 2,
            r@ + strip_sequences_from(s@.skip(i as int), st as int) == strip_ansi(s@),
        decreases n - i,
    {
        let c = cs[i];
        let ghost r0 = r@;
        let ghost rest = s@.skip(i + 1);
        assert(s@.skip(i as int)[0] == c);
        assert(s@.skip(i as int).drop_first() =~= rest);
        if st == 1 {
            if c == '[' {
                st = 2;
            } else if c == ESC {
                push_char(&mut r, ESC);
                assert(r0 + (seq![ESC] + strip_sequences_from(rest, 1)) =~= r@ + strip_sequences_from(rest, 1));
            } else {
                push_char(&mut r, ESC);
                push_char(&mut r, c);
                st = 0;
                assert(r0 + (seq![ESC, c] + strip_sequences_from(rest, 0)) =~= r@ + strip_sequences_from(rest, 0));
            }
        } else if st == 2 {
            if '@' <= c && c <= '~' {
                st = 0;
            }
        } else {
            if c == ESC {
                st = 1;
            } else {
                push_char(&mut r, c);
                assert(r0 + (seq![c] + strip_sequences_from(rest, 0)) =~= r@ + strip_sequences_from(rest, 0));
            }
        }
        i = i + 1;
    }
    assert(s@.skip(n as int).len() == 0);
    if st == 1 {
        push_char(&mut r, ESC);
    }
    assert(r@ =~= strip_ansi(s@));
    r
}

/// The first step of a job that failed.
pub open spec fn first_failed_step(steps: Seq<JobStep>) -> Option<JobStep>
    decreases steps.len(),
{
    if steps.len() == 0 {
        None
    } else if steps[0].status@ == "failed"@ {
        Some(steps[0])
    } else {
        first_failed_step(steps.drop_first())
    }
}

/// The first action of a step that failed.
pub open spec fn first_failed_action(actions: Seq<StepAction>) -> Option<StepAction>
    decreases actions.len(),
{
    if actions.len() == 0 {
        None
    } else if actions[0].status@ == "failed"@ {
        Some(actions[0])
    } else {
        first_failed_action(actions.drop_first())
    }
}

/// Where the output of a job's failing command is found: the output of the
/// first failed action of its first failed step, if both exist and the
/// action has output.
pub open spec fn failed_output_url(steps: Seq<JobStep>) -> Option<Seq<char>> {
    match first_failed_step(steps) {
        Some(step) => match first_failed_action(step.actions@) {
            Some(a) => match a.output_url {
                Some(u) => Some(u@),
                None => None,
            },
            None => None,
        },
        None => None,
    }
}

fn first_failed_action_index(actions: &Vec<StepAction>) -> (r: Option<usize>)
    ensures
        match r {
            Some(k) => k < actions@.len() && first_failed_action(actions@) == Some(actions@[k as int]),
            None => first_failed_action(actions@) is None,
        },
{
    let mut i: usize = 0;
    assert(actions@.skip(0) =~= actions@);
    while i < actions.len()
        invariant
            i <= actions@.len(),
            first_failed_action(actions@.skip(i as int)) == first_failed_action(actions@),
        decreases actions@.len() - i,
    {
        assert(actions@.skip(i as int)[0] == actions@[i as int]);
        if str_eq(actions[i].status.as_str(), "failed") {
            return Some(i);
        }
        assert(actions@.skip(i as int).drop_first() =~= actions@.skip(i + 1));
        i = i + 1;
    }
    assert(actions@.skip(i as int).len() == 0);
    None
}

/// Where the output of a job's failing command is found, from the job's
/// steps: the first failed action of the first failed step, if it has
/// output.
pub fn failed_action_output_url(steps: &Vec<JobStep>) -> (r: Option<String>)
    ensures
        match r {
            Some(u) => failed_output_url(steps@) == Some(u@),
            None => failed_output_url(steps@) is None,
        },
{
    let mut i: usize = 0;
    assert(steps@.skip(0) =~= steps@);
    while i < steps.len()
        invariant
            i <= steps@.len(),
            first_failed_step(steps@.skip(i as int)) == first_failed_step(steps@),
        decreases steps@.len() - i,
    {
        assert(steps@.skip(i as int)[0] == steps@[i as int]);
        let step = &steps[i];
        if str_eq(step.status.as_str(), "failed") {
            return match first_failed_action_index(&step.actions) {
                Some(k) => match &step.actions[k].output_url {
                    Some(u) => Some(owned(u.as_str())),
                    None => None,
                },
                None => None,
            };
        }
        assert(steps@.skip(i as int).drop_first() =~= steps@.skip(i + 1));
        i = i + 1;
    }
    assert(steps@.skip(i as int).len() == 0);
    None
}

/// The command to reproduce a failed job, from the lines its failing action
/// printed (`None` when they could not be had): the first line without its
/// control sequences and surrounding whitespace; empty when there is none.
pub open spec fn reproduce_text(output: Option<Vec<String>>) -> Seq<char> {
    match output {
        Some(ls) => if ls@.len() > 0 { trim_of(strip_ansi(ls@[0]@)) } else { Seq::empty() },
        None => Seq::empty(),
    }
}

/// The command to reproduce a failed job, from the lines its failing action
/// printed.
pub fn reproduce_command(output: &Option<Vec<String>>) -> (r: String)
    ensures
        r@ == reproduce_text(*output),
{
    match output {
        Some(ls) => {
            if ls.len() > 0 {
                let clean = strip_ansi_codes(ls[0].as_str());
                owned(trim(clean.as_str()))
            } else {
                String::new()
            }
        },
        None => String::new(),
    }
}

/// The log lines kept for a failed job from the outcome of fetching them
/// (`None` when no answer came in time): the lines that came, else one line
/// that names the error, else one that says the fetch timed out.
pub open spec fn fetched_log_lines(outcome: Option<Result<Vec<String>, ApiError>>) -> Seq<Seq<char>> {
    match outcome {
        Some(Ok(ls)) => strings_view(ls@),
        Some(Err(e)) => seq!["(fetch error: "@ + api_error_message(e) + ")"@],
        None => seq!["(timed out)"@],
    }
}

/// The log lines kept for a failed job from the outcome of fetching them.
pub fn log_lines_from_fetch(outcome: Option<Result<Vec<String>, ApiError>>) -> (r: Vec<String>)
    ensures
        strings_view(r@) == fetched_log_lines(outcome),
{
    match outcome {
        Some(Ok(ls)) => ls,
        Some(Err(e)) => {
            let a = concat("(fetch error: ", e.message().as_str());
            let line = concat(a.as_str(), ")");
            let v = vec![line];
            assert(strings_view(v@) =~= fetched_log_lines(Some(Err(e))));
            v
        },
        None => {
            let v = vec![owned("(timed out)")];
            assert(strings_view(v@) =~= fetched_log_lines(None));
            v
        },
    }
}

/// The report on a failed job from its name, the failing command and its
/// log lines, whose control sequences are taken out.
pub fn job_report(job_name: String, reproduce: String, lines: &Vec<String>) -> (r: FailedJobReport)
    ensures
        r.name == job_name,
        r.reproduce == reproduce,
        r.summary_logs@ == joined_lines(tail(strip_all(strings_view(lines@)), SUMMARY_TAIL_LINES as nat)),
        r.full_logs@ == joined_lines(strip_all(strings_view(lines@))),
        r.full_filename@ == slashes_to_dashes(job_name@) + ".md"@,
{
    let mut clean: Vec<String> = Vec::new();
    let mut i: usize = 0;
    while i < lines.len()
        invariant
            i <= lines@.len(),
            strings_view(clean@) == strip_all(strings_view(lines@.take(i as int))),
        decreases lines@.len() - i,
    {
        let ghost c0 = strings_view(clean@);
        clean.push(strip_ansi_codes(lines[i].as_str()));
        assert(lines@.take(i + 1) =~= lines@.take(i as int).push(lines@[i as int]));
        assert(strings_view(clean@) =~= c0.push(strip_ansi(lines@[i as int]@)));
        assert(strings_view(clean@) =~= strip_all(strings_view(lines@.take(i + 1))));
        i = i + 1;
    }
    assert(lines@.take(i as int) =~= lines@);
    let n = clean.len();
    let start = if n <= SUMMARY_TAIL_LINES { 0 } else { n - SUMMARY_TAIL_LINES };
    let tail_lines = vstd::slice::slice_subrange(clean.as_slice(), start, n);
    assert(strings_view(tail_lines@) =~= tail(strings_view(clean@), SUMMARY_TAIL_LINES as nat));
    let summary_logs = join_lines(tail_lines);
    let full_logs = join_lines(clean.as_slice());
    let full_filename = concat(replace_slashes(job_name.as_str()).as_str(), ".md");
    FailedJobReport { name: job_name, reproduce, summary_logs, full_logs, full_filename }
}

/// The folder the report goes to.
pub open spec fn run_dir_text(timestamp: Seq<char>) -> Seq<char> {
    "ci-failures-"@ + timestamp
}

/// The checklist line of a failed job.
pub open spec fn checklist_line(r: FailedJobReport) -> Seq<char> {
    "- [ ] fix "@ + r.name@
}

/// The section of the summary about a failed job.
pub open spec fn detail_section(r: FailedJobReport) -> Seq<char> {
    "## "@ + r.name@ + "\n**Command:** `"@ + r.reproduce@ + "`  **Full log:** `"@ + r.full_filename@ + "`\n\n```\n"@
        + r.summary_logs@ + "\n```"@
}

/// The instructions at the top of the summary.
pub open spec fn prompt_text(timestamp: Seq<char>) -> Seq<char> {
    "You are a senior engineer. For each failing job below, identify the root cause and provide a concrete fix (file path, function name, exact code change). Only load the full log file if the summary is not enough to diagnose. "@ + "For each job fixed, amend the current commit. When all jobs are fixed, always ask the user for permission before running: `rm -rf ci-failures-"@ + timestamp + "`"@ + "\n\n"@
}

/// The summary of the failed jobs at `timestamp`: a title, the
/// instructions, a checklist with a line per job, and a section per job.
pub open spec fn summary_text(timestamp: Seq<char>, rs: Seq<FailedJobReport>) -> Seq<char> {
    "# CI Failures - "@ + timestamp + "\n\n"@ + prompt_text(timestamp) + joined_lines(rs.map_values(|r: FailedJobReport| checklist_line(r)))
        + "\n\n---\n\n"@ + joined_by(rs.map_values(|r: FailedJobReport| detail_section(r)), "\n\n---\n\n"@) + "\n"@
}

/// The file with a failed job's whole log.
pub open spec fn full_log_text(r: FailedJobReport) -> Seq<char> {
    "# Full logs - "@ + r.name@ + "\n\n**To reproduce:** `"@ + r.reproduce@ + "`\n\n```\n"@ + r.full_logs@ + "\n```\n"@
}

/// The folder the report goes to.
pub fn run_dir_name(timestamp: &str) -> (r: String)
    ensures
        r@ == run_dir_text(timestamp@),
{
    concat("ci-failures-", timestamp)
}

/// The file with a failed job's whole log.
pub fn full_log_content(r: &FailedJobReport) -> (s: String)
    ensures
        s@ == full_log_text(*r),
{
    let a = concat("# Full logs - ", r.name.as_str());
    let b = concat(a.as_str(), "\n\n**To reproduce:** `");
    let c = concat(b.as_str(), r.reproduce.as_str());
    let d = concat(c.as_str(), "`\n\n```\n");
    let e = concat(d.as_str(), r.full_logs.as_str());
    concat(e.as_str(), "\n```\n")
}

/// The summary of the failed jobs at `timestamp`.
pub fn summary_content(timestamp: &str, reports: &Vec<FailedJobReport>) -> (s: String)
    ensures
        s@ == summary_text(timestamp@, reports@),
{
    let mut checklist: Vec<String> = Vec::new();
    let mut sections: Vec<String> = Vec::new();
    let mut i: usize = 0;
    while i < reports.len()
        invariant
            i <= reports@.len(),
            strings_view(checklist@) == reports@.take(i as int).map_values(|r: FailedJobReport| checklist_line(r)),
            strings_view(sections@) == reports@.take(i as int).map_values(|r: FailedJobReport| detail_section(r)),
        decreases reports@.len() - i,
    {
        let r = &reports[i];
        let ghost c0 = strings_view(checklist@);
        let ghost s0 = strings_view(sections@);
        checklist.push(concat("- [ ] fix ", r.name.as_str()));
        let a = concat("## ", r.name.as_str());
        let b = concat(a.as_str(), "\n**Command:** `");
        let c = concat(b.as_str(), r.reproduce.as_str());
        let d = concat(c.as_str(), "`  **Full log:** `");
        let e = concat(d.as_str(), r.full_filename.as_str());
        let f = concat(e.as_str(), "`\n\n```\n");
        let g = concat(f.as_str(), r.summary_logs.as_str());
        sections.push(concat(g.as_str(), "\n```"));
        assert(strings_view(checklist@) =~= c0.push(checklist_line(reports@[i as int])));
        assert(strings_view(sections@) =~= s0.push(detail_section(reports@[i as int])));
        assert(reports@.take(i + 1) =~= reports@.take(i as int).push(reports@[i as int]));
        assert(strings_view(checklist@) =~= reports@.take(i + 1).map_values(|r: FailedJobReport| checklist_line(r)));
        assert(strings_view(sections@) =~= reports@.take(i + 1).map_values(|r: FailedJobReport| detail_section(r)));
        i = i + 1;
    }
    assert(reports@.take(i as int) =~= reports@);
    let p1 = concat("You are a senior engineer. For each failing job below, identify the root cause and provide a concrete fix (file path, function name, exact code change). Only load the full log file if the summary is not enough to diagnose. ", "For each job fixed, amend the current commit. When all jobs are fixed, always ask the user for permission before running: `rm -rf ci-failures-");
    let p2 = concat(p1.as_str(), timestamp);
    let p3 = concat(p2.as_str(), "`");
    let prompt = concat(p3.as_str(), "\n\n");
    let t1 = concat("# CI Failures - ", timestamp);
    let t2 = concat(t1.as_str(), "\n\n");
    let t3 = concat(t2.as_str(), prompt.as_str());
    let t4 = concat(t3.as_str(), join_lines(checklist.as_slice()).as_str());
    let t5 = concat(t4.as_str(), "\n\n---\n\n");
    let t6 = concat(t5.as_str(), join_with(sections.as_slice(), "\n\n---\n\n").as_str());
    concat(t6.as_str(), "\n")
}

} // verus!
