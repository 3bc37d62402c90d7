//! The pipeline list: search text, owner/branch/date/status filters, a
//! status summary and a wrapping selection.

use vstd::prelude::*;
use std::collections::HashMap;
use crate::api::mock_data::{MOCK_EARLIEST_NOW, MOCK_PIPELINE_COUNT, are_mock_pipelines, mock_pipelines_at};
use crate::api::models::{Pipeline, Workflow};
use crate::clock::unix_now;
use crate::keys::{KeyCode, KeyEvent};
use crate::preferences::PipelineFilterPrefs;
use crate::screens::pipeline_detail::{next_index, previous_index};
use crate::text::{
    concat, decimal, signed_decimal, i128_to_string, is_infix, joined_by, lowercase, owned, str_contains, str_eq, str_less, text_less,
    to_lower, u64_to_string, usize_to_string, join_with, lemma_text_less_asymmetric,
    lemma_text_less_total, lemma_text_less_transitive,
};
use crate::widgets::faceted_search::{Facet, FacetedSearchBar, strings_view, absent, is_first_index};
use crate::widgets::spinner::Spinner;
use crate::widgets::text_input::{Borders, TextInput};
use crate::theme::{get_status_icon, icon_of, status_kind_of};

verus! {

/// Options of the owner filter.
pub open spec fn owner_filter_options() -> Seq<Seq<char>> {
    seq!["All pipelines"@, "Mine"@]
}

/// Options of the date filter; "All time" is the default.
pub open spec fn date_filter_options() -> Seq<Seq<char>> {
    seq!["Last 24 hours"@, "Last 7 days"@, "Last 30 days"@, "Last 90 days"@, "All time"@]
}

/// Options of the pipeline status filter.
pub open spec fn pipeline_status_options() -> Seq<Seq<char>> {
    seq!["All"@, "success"@, "failed"@, "running"@, "pending"@]
}

/// Index of the default date option, "All time".
pub const DEFAULT_DATE_INDEX: usize = 4;

/// Seconds in a day.
pub const SECONDS_PER_DAY: i64 = 86400;

/// How far back a date filter reaches, in seconds; `None` for no limit.
pub open spec fn date_window(filter: Seq<char>) -> Option<int> {
    if filter == "Last 24 hours"@ {
        Some(SECONDS_PER_DAY as int)
    } else if filter == "Last 7 days"@ {
        Some(7 * SECONDS_PER_DAY)
    } else if filter == "Last 30 days"@ {
        Some(30 * SECONDS_PER_DAY)
    } else if filter == "Last 90 days"@ {
        Some(90 * SECONDS_PER_DAY)
    } else {
        None
    }
}

/// Whether a pipeline created at `created` passes the date filter at `now`.
pub open spec fn date_matches(filter: Seq<char>, created: i64, now: i64) -> bool {
    match date_window(filter) {
        Some(w) => created >= now - w,
        None => true,
    }
}

/// Whether a pipeline passes the (lower-cased) search text: its number,
/// branch, commit subject or author contains it, ignoring case.
pub open spec fn text_matches(p: Pipeline, search: Seq<char>) -> bool {
    ||| search.len() == 0
    ||| is_infix(search, decimal(p.number as nat))
    ||| is_infix(search, lowercase(p.vcs.branch@))
    ||| is_infix(search, lowercase(p.vcs.commit_subject@))
    ||| is_infix(search, lowercase(p.vcs.commit_author_name@))
}

/// Whether a pipeline passes the status filter.
pub open spec fn state_matches(filter: Seq<char>, state: Seq<char>) -> bool {
    filter == "All"@ || state == filter
}

/// Whether a pipeline passes all client-side filters.
pub open spec fn pipeline_matches(p: Pipeline, search: Seq<char>, date: Seq<char>, status: Seq<char>, now: i64) -> bool {
    text_matches(p, search) && date_matches(date, p.created_at, now) && state_matches(status, p.state@)
}

/// The pipelines that pass the filters, in order.
pub open spec fn filter_pipelines(ps: Seq<Pipeline>, search: Seq<char>, date: Seq<char>, status: Seq<char>, now: i64) -> Seq<Pipeline>
    decreases ps.len(),
{
    if ps.len() == 0 {
        seq![]
    } else {
        let rest = filter_pipelines(ps.drop_last(), search, date, status, now);
        if pipeline_matches(ps.last(), search, date, status, now) {
            rest.push(ps.last())
        } else {
            rest
        }
    }
}

/// The date filters keep the pipelines created within their window before
/// `now`: "Last 24 hours" the last 86400 seconds, "Last 7 days",
/// "Last 30 days" and "Last 90 days" that many days of 86400 seconds;
/// "All time" keeps every pipeline. With no search text and status "All",
/// a pipeline is listed exactly when it passes the date filter.
pub proof fn law_date_filter_windows(p: Pipeline, now: i64)
    ensures
        date_matches("Last 24 hours"@, p.created_at, now) <==> p.created_at >= now - 86400,
        date_matches("Last 7 days"@, p.created_at, now) <==> p.created_at >= now - 7 * 86400,
        date_matches("Last 30 days"@, p.created_at, now) <==> p.created_at >= now - 30 * 86400,
        date_matches("Last 90 days"@, p.created_at, now) <==> p.created_at >= now - 90 * 86400,
        date_matches("All time"@, p.created_at, now),
        forall|d: Seq<char>|
            #[trigger] pipeline_matches(p, Seq::empty(), d, "All"@, now) <==> date_matches(d, p.created_at, now),
{
    reveal_strlit("Last 24 hours");
    reveal_strlit("Last 7 days");
    reveal_strlit("Last 30 days");
    reveal_strlit("Last 90 days");
    reveal_strlit("All time");
    reveal_strlit("All");
    assert("Last 7 days"@ != "Last 24 hours"@) by {
        assert("Last 7 days"@[5] != "Last 24 hours"@[5]);
    }
    assert("Last 30 days"@ != "Last 24 hours"@) by {
        assert("Last 30 days"@[6] != "Last 24 hours"@[6]);
    }
    assert("Last 30 days"@ != "Last 7 days"@) by {
        assert("Last 30 days"@[5] != "Last 7 days"@[5]);
    }
    assert("Last 90 days"@ != "Last 24 hours"@) by {
        assert("Last 90 days"@[5] != "Last 24 hours"@[5]);
    }
    assert("Last 90 days"@ != "Last 7 days"@) by {
        assert("Last 90 days"@[5] != "Last 7 days"@[5]);
    }
    assert("Last 90 days"@ != "Last 30 days"@) by {
        assert("Last 90 days"@[5] != "Last 30 days"@[5]);
    }
    assert("All time"@ != "Last 24 hours"@) by {
        assert("All time"@[1] != "Last 24 hours"@[1]);
    }
    assert("All time"@ != "Last 7 days"@) by {
        assert("All time"@[1] != "Last 7 days"@[1]);
    }
    assert("All time"@ != "Last 30 days"@) by {
        assert("All time"@[1] != "Last 30 days"@[1]);
    }
    assert("All time"@ != "Last 90 days"@) by {
        assert("All time"@[1] != "Last 90 days"@[1]);
    }
}

/// The test a pipeline must pass to be listed.
pub open spec fn pipeline_test(search: Seq<char>, date: Seq<char>, status: Seq<char>, now: i64) -> spec_fn(Pipeline) -> bool {
    |p: Pipeline| pipeline_matches(p, search, date, status, now)
}

/// The pipeline filter keeps exactly the pipelines that pass every filter,
/// in their order: it is the sequence filtered by that test. Every pipeline
/// listed passes, every pipeline that passes is listed, and no more are
/// listed than there were.
pub proof fn law_pipeline_filter_keeps_matches(
    ps: Seq<Pipeline>,
    search: Seq<char>,
    date: Seq<char>,
    status: Seq<char>,
    now: i64,
)
    ensures
        filter_pipelines(ps, search, date, status, now) == ps.filter(pipeline_test(search, date, status, now)),
        forall|i: int|
            0 <= i < filter_pipelines(ps, search, date, status, now).len() ==> pipeline_matches(
                #[trigger] filter_pipelines(ps, search, date, status, now)[i],
                search,
                date,
                status,
                now,
            ),
        forall|i: int|
            0 <= i < ps.len() && pipeline_matches(ps[i], search, date, status, now)
                ==> #[trigger] filter_pipelines(ps, search, date, status, now).contains(ps[i]),
        filter_pipelines(ps, search, date, status, now).len() <= ps.len(),
    decreases ps.len(),
{
    broadcast use vstd::seq_lib::group_filter_ensures;
    reveal(Seq::filter);
    if ps.len() > 0 {
        law_pipeline_filter_keeps_matches(ps.drop_last(), search, date, status, now);
    }
    let f = pipeline_test(search, date, status, now);
    assert forall|i: int|
        0 <= i < ps.filter(f).len() implies pipeline_matches(#[trigger] ps.filter(f)[i], search, date, status, now) by {
        assert(f(ps.filter(f)[i]));
    }
    assert forall|i: int|
        0 <= i < ps.len() && pipeline_matches(ps[i], search, date, status, now) implies #[trigger] ps.filter(f).contains(ps[i]) by {
        assert(f(ps[i]));
    }
}

/// The selection kept after the list changed to `n` items: none when the
/// list is empty, otherwise moved onto the last item when past it.
pub open spec fn clamped_selection(sel: Option<usize>, n: nat) -> Option<usize> {
    if n == 0 {
        None
    } else {
        match sel {
            Some(i) => Some(if i < n { i } else { (n - 1) as usize }),
            None => None,
        }
    }
}

/// The branches of the pipelines.
pub open spec fn branches_of(ps: Seq<Pipeline>) -> Set<Seq<char>> {
    Set::new(|b: Seq<char>| exists|i: int| 0 <= i < ps.len() && #[trigger] ps[i].vcs.branch@ == b)
}

/// Strictly increasing in the order of strings, so without repeats.
pub open spec fn strictly_sorted(s: Seq<Seq<char>>) -> bool {
    forall|i: int, j: int| 0 <= i < j < s.len() ==> text_less(#[trigger] s[i], #[trigger] s[j])
}

/// The elements of a sequence.
pub open spec fn elements(s: Seq<Seq<char>>) -> Set<Seq<char>> {
    Set::new(|b: Seq<char>| exists|i: int| 0 <= i < s.len() && #[trigger] s[i] == b)
}

/// Number of pipelines in the given state family.
pub open spec fn count_state(ps: Seq<Pipeline>, family: Seq<Seq<char>>) -> nat
    decreases ps.len(),
{
    if ps.len() == 0 {
        0
    } else {
        count_state(ps.drop_last(), family) + if family.contains(ps.last().state@) { 1nat } else { 0nat }
    }
}

/// States counted as succeeded.
pub open spec fn succeeded_states() -> Seq<Seq<char>> {
    seq!["success"@]
}

/// States counted as failed.
pub open spec fn failed_states() -> Seq<Seq<char>> {
    seq!["failed"@, "error"@]
}

/// States counted as running.
pub open spec fn running_states() -> Seq<Seq<char>> {
    seq!["running"@]
}

/// Whether a pipeline's state is "success".
pub open spec fn pipeline_succeeded() -> spec_fn(Pipeline) -> bool {
    |p: Pipeline| p.state@ == "success"@
}

/// Whether a pipeline's state is "failed" or "error".
pub open spec fn pipeline_failed() -> spec_fn(Pipeline) -> bool {
    |p: Pipeline| p.state@ == "failed"@ || p.state@ == "error"@
}

/// Whether a pipeline's state is "running".
pub open spec fn pipeline_running() -> spec_fn(Pipeline) -> bool {
    |p: Pipeline| p.state@ == "running"@
}

/// The counts of the pipeline summary are the numbers of pipelines whose
/// state is "success", "failed" or "error", and "running".
pub proof fn law_pipeline_summary_counts(ps: Seq<Pipeline>)
    ensures
        count_state(ps, succeeded_states()) == ps.filter(pipeline_succeeded()).len(),
        count_state(ps, failed_states()) == ps.filter(pipeline_failed()).len(),
        count_state(ps, running_states()) == ps.filter(pipeline_running()).len(),
    decreases ps.len(),
{
    reveal(Seq::filter);
    if ps.len() > 0 {
        law_pipeline_summary_counts(ps.drop_last());
        let st = ps.last().state@;
        assert(succeeded_states().contains(st) <==> st == "success"@) by {
            if st == "success"@ {
                assert(succeeded_states()[0] == st);
            }
        }
        assert(failed_states().contains(st) <==> (st == "failed"@ || st == "error"@)) by {
            if st == "failed"@ {
                assert(failed_states()[0] == st);
            }
            if st == "error"@ {
                assert(failed_states()[1] == st);
            }
        }
        assert(running_states().contains(st) <==> st == "running"@) by {
            if st == "running"@ {
                assert(running_states()[0] == st);
            }
        }
    }
}

/// The pipeline status summary: "✓ 10 ● 2 ✗ 3", leaving out zero counts.
pub open spec fn pipeline_summary_text(succeeded: nat, running: nat, failed: nat) -> Seq<char> {
    let a: Seq<Seq<char>> = if succeeded > 0 { seq!["✓ "@ + decimal(succeeded)] } else { seq![] };
    let b: Seq<Seq<char>> = if running > 0 { a.push("● "@ + decimal(running)) } else { a };
    let c: Seq<Seq<char>> = if failed > 0 { b.push("✗ "@ + decimal(failed)) } else { b };
    joined_by(c, " "@)
}

/// Inserts `b` into a strictly sorted list unless it is there already.
fn insert_sorted(v: &mut Vec<String>, b: &str)
    requires
        strictly_sorted(strings_view(old(v)@)),
    ensures
        strictly_sorted(strings_view(final(v)@)),
        elements(strings_view(final(v)@)) == elements(strings_view(old(v)@)).insert(b@),
{
    let ghost before = strings_view(v@);
    let mut p: usize = 0;
    while p < v.len() && str_less(v[p].as_str(), b)
        invariant
            p <= v@.len(),
            strings_view(v@) == before,
            forall|j: int| 0 <= j < p ==> text_less(#[trigger] before[j], b@),
        decreases v@.len() - p,
    {
        p = p + 1;
    }
    if p < v.len() && str_eq(v[p].as_str(), b) {
        assert(elements(before).insert(b@) =~= elements(before)) by {
            assert(before[p as int] == b@);
        }
        return;
    }
    proof {
        if p < v@.len() {
            lemma_text_less_total(before[p as int], b@);
        }
    }
    v.insert(p, owned(b));
    let ghost after = strings_view(v@);
    assert(after =~= before.insert(p as int, b@));
    assert forall|j: int| p < j < after.len() implies text_less(b@, #[trigger] after[j]) by {
        assert(after[j] == before[j - 1]);
        if j - 1 > p {
            assert(text_less(before[p as int], before[j - 1]));
            lemma_text_less_transitive(b@, before[p as int], before[j - 1]);
        }
    }
    assert forall|i: int, j: int| 0 <= i < j < after.len() implies text_less(#[trigger] after[i], #[trigger] after[j]) by {
        if i < p && j == p {
        } else if i < p && j > p {
            assert(text_less(b@, after[j]));
            lemma_text_less_transitive(after[i], b@, after[j]);
        } else if i == p {
            assert(text_less(b@, after[j]));
        } else if i > p {
            assert(after[i] == before[i - 1] && after[j] == before[j - 1]);
        } else {
            assert(after[i] == before[i] && after[j] == before[j]);
        }
    }
    assert(elements(after) =~= elements(before).insert(b@)) by {
        assert forall|x: Seq<char>| elements(before).insert(b@).contains(x) implies elements(after).contains(x) by {
            if x == b@ {
                assert(after[p as int] == x);
            } else {
                let k = choose|k: int| 0 <= k < before.len() && before[k] == x;
                if k < p {
                    assert(after[k] == x);
                } else {
                    assert(after[k + 1] == x);
                }
            }
        }
        assert forall|x: Seq<char>| elements(after).contains(x) implies elements(before).insert(b@).contains(x) by {
            let k = choose|k: int| 0 <= k < after.len() && after[k] == x;
            if k < p {
                assert(before[k] == x);
            } else if k > p {
                assert(before[k - 1] == x);
            }
        }
    }
}

/// The branches of `pipelines`, each once, in the order of strings.
pub fn unique_branches(pipelines: &Vec<Pipeline>) -> (r: Vec<String>)
    ensures
        strictly_sorted(strings_view(r@)),
        elements(strings_view(r@)) == branches_of(pipelines@),
{
    let mut r: Vec<String> = Vec::new();
    let mut i: usize = 0;
    assert(elements(strings_view(r@)) =~= branches_of(pipelines@.take(0)));
    while i < pipelines.len()
        invariant
            i <= pipelines@.len(),
            strictly_sorted(strings_view(r@)),
            elements(strings_view(r@)) == branches_of(pipelines@.take(i as int)),
        decreases pipelines@.len() - i,
    {
        insert_sorted(&mut r, pipelines[i].vcs.branch.as_str());
        assert(branches_of(pipelines@.take(i + 1)) =~= branches_of(pipelines@.take(i as int)).insert(
            pipelines@[i as int].vcs.branch@,
        )) by {
            let t = pipelines@.take(i + 1);
            assert forall|x: Seq<char>| branches_of(t).contains(x) implies branches_of(pipelines@.take(i as int)).insert(
                pipelines@[i as int].vcs.branch@,
            ).contains(x) by {
                let k = choose|k: int| 0 <= k < t.len() && t[k].vcs.branch@ == x;
                if k < i {
                    assert(pipelines@.take(i as int)[k].vcs.branch@ == x);
                }
            }
            assert forall|x: Seq<char>| branches_of(pipelines@.take(i as int)).insert(
                pipelines@[i as int].vcs.branch@,
            ).contains(x) implies branches_of(t).contains(x) by {
                if x == pipelines@[i as int].vcs.branch@ {
                    assert(t[i as int].vcs.branch@ == x);
                } else {
                    let k = choose|k: int| 0 <= k < i && pipelines@.take(i as int)[k].vcs.branch@ == x;
                    assert(t[k].vcs.branch@ == x);
                }
            }
        }
        i = i + 1;
    }
    assert(pipelines@.take(i as int) =~= pipelines@);
    r
}


/// Whether a pipeline passes the filters; `search` is already lower-cased.
fn pipeline_passes(p: &Pipeline, search: &str, date: &str, status: &str, now: i64) -> (r: bool)
    ensures
        r == pipeline_matches(*p, search@, date@, status@, now),
{
    let text_ok = if search.unicode_len() == 0 {
        true
    } else {
        let number = u64_to_string(p.number as u64);
        str_contains(number.as_str(), search) || str_contains(to_lower(p.vcs.branch.as_str()).as_str(), search)
            || str_contains(to_lower(p.vcs.commit_subject.as_str()).as_str(), search)
            || str_contains(to_lower(p.vcs.commit_author_name.as_str()).as_str(), search)
    };
    let window: Option<i64> = if str_eq(date, "Last 24 hours") {
        Some(SECONDS_PER_DAY)
    } else if str_eq(date, "Last 7 days") {
        Some(7 * SECONDS_PER_DAY)
    } else if str_eq(date, "Last 30 days") {
        Some(30 * SECONDS_PER_DAY)
    } else if str_eq(date, "Last 90 days") {
        Some(90 * SECONDS_PER_DAY)
    } else {
        None
    };
    let date_ok = match window {
        Some(w) => p.created_at as i128 >= now as i128 - w as i128,
        None => true,
    };
    let status_ok = str_eq(status, "All") || str_eq(p.state.as_str(), status);
    text_ok && date_ok && status_ok
}

/// The pipeline list screen.
pub struct PipelineScreen {
    /// All pipelines, as loaded.
    pub pipelines: Vec<Pipeline>,
    /// The pipelines that pass the filters.
    pub filtered_pipelines: Vec<Pipeline>,
    /// Selected row, as an index into the filtered pipelines.
    pub selected_index: Option<usize>,
    pub loading: bool,
    /// The search box.
    pub search_input: TextInput,
    /// Owner (facet 0), branch (1), date (2) and status (3) filters.
    pub faceted_search: FacetedSearchBar,
    /// The filter buttons have the keyboard.
    pub filter_active: bool,
    /// The search box has the keyboard.
    pub search_focused: bool,
    pub spinner: Spinner,
    pub refreshing: bool,
    /// Login of the signed-in user, for the "Mine" filter.
    pub authenticated_user: Option<String>,
    /// Full name of the signed-in user, for the "Mine" filter.
    pub authenticated_user_name: Option<String>,
    /// Workflows of pipelines, by pipeline id.
    pub pipeline_workflows: HashMap<String, Vec<Workflow>>,
    pub loading_workflows: bool,
}

impl PipelineScreen {
    /// Four filters with valid selections and defaults, a valid search box
    /// and spinner.
    pub open spec fn wf(self) -> bool {
        &&& self.faceted_search.wf()
        &&& self.faceted_search.defaults_in_range()
        &&& self.faceted_search.facets_view().len() == 4
        &&& self.faceted_search.facets_view()[1].default() == 0
        &&& self.search_input.wf()
        &&& self.spinner.wf()
    }

    /// The selected option of filter `i`.
    pub open spec fn filter_option(self, i: int) -> Seq<char> {
        self.faceted_search.facets_view()[i].options_view()[self.faceted_search.facets_view()[i].selected() as int]
    }

    /// The owner, date and status filters offer their usual options.
    pub open spec fn has_standard_filters(self) -> bool {
        &&& self.faceted_search.facets_view()[0].options_view() == owner_filter_options()
        &&& self.faceted_search.facets_view()[2].options_view() == date_filter_options()
        &&& self.faceted_search.facets_view()[3].options_view() == pipeline_status_options()
    }

    /// `p` records this screen's filter selections and search text; the
    /// branch is recorded unless it is "All".
    pub open spec fn saved_as(self, p: PipelineFilterPrefs) -> bool {
        &&& p.owner_index == self.faceted_search.facets_view()[0].selected()
        &&& p.date_index == self.faceted_search.facets_view()[2].selected()
        &&& p.status_index == self.faceted_search.facets_view()[3].selected()
        &&& (self.filter_option(1) == "All"@) == (p.branch is None)
        &&& p.branch matches Some(b) ==> b@ == self.filter_option(1)
        &&& p.search_text@ == self.search_input.value_view()
    }

    /// This screen's filters come from `p`: its owner, date and status
    /// options are selected when they exist (else the defaults), its branch
    /// is selected ("All" when none is saved), and its search text is
    /// filled in.
    pub open spec fn restored_from(self, p: PipelineFilterPrefs) -> bool {
        &&& self.has_standard_filters()
        &&& self.faceted_search.facets_view()[0].selected() == if p.owner_index < 2 { p.owner_index as nat } else { 0 }
        &&& self.faceted_search.facets_view()[2].selected() == if p.date_index < 5 {
            p.date_index as nat
        } else {
            DEFAULT_DATE_INDEX as nat
        }
        &&& self.faceted_search.facets_view()[3].selected() == if p.status_index < 5 { p.status_index as nat } else { 0 }
        &&& match p.branch {
            Some(b) => self.filter_option(1) == b@,
            None => self.faceted_search.facets_view()[1].selected() == 0 && self.filter_option(1) == "All"@,
        }
        &&& self.search_input.value_view() == p.search_text@
    }

    /// The lower-cased search text.
    pub open spec fn search(self) -> Seq<char> {
        lowercase(self.search_input.value_view())
    }

    /// The pipelines that pass the filters at `now`.
    pub open spec fn filtered_at(self, now: i64) -> Seq<Pipeline> {
        filter_pipelines(self.pipelines@, self.search(), self.filter_option(2), self.filter_option(3), now)
    }

    /// `n` is this screen with the filters applied at `now`.
    pub open spec fn filters_applied(self, n: Self, now: i64) -> bool {
        &&& n.filtered_pipelines@ == self.filtered_at(now)
        &&& n == (PipelineScreen {
            filtered_pipelines: n.filtered_pipelines,
            selected_index: clamped_selection(self.selected_index, self.filtered_at(now).len()),
            ..self
        })
    }

    /// The four filters of a new screen, with branch options "All" and then
    /// `branches`.
    fn initial_filters(branches: Vec<String>) -> (r: FacetedSearchBar)
        ensures
            r.wf(),
            r.defaults_in_range(),
            r.facets_view().len() == 4,
            r.facets_view()[0].options_view() == owner_filter_options(),
            r.facets_view()[1].options_view() == seq!["All"@] + strings_view(branches@),
            r.facets_view()[2].options_view() == date_filter_options(),
            r.facets_view()[3].options_view() == pipeline_status_options(),
            r.selections() == seq![0nat, 0nat, DEFAULT_DATE_INDEX as nat, 0nat],
            r.facets_view()[1].default() == 0,
            !r.spec_is_filtered(),
            r.active() == 0,
            !r.open(),
    {
        let owner = vec![owned("All pipelines"), owned("Mine")];
        let mut branch_options = vec![owned("All")];
        let mut more = branches;
        let ghost bs = more@;
        branch_options.append(&mut more);
        let dates = vec![
            owned("Last 24 hours"),
            owned("Last 7 days"),
            owned("Last 30 days"),
            owned("Last 90 days"),
            owned("All time"),
        ];
        let statuses = vec![owned("All"), owned("success"), owned("failed"), owned("running"), owned("pending")];
        assert(strings_view(owner@) =~= owner_filter_options());
        assert(strings_view(branch_options@) =~= seq!["All"@] + strings_view(bs));
        assert(strings_view(dates@) =~= date_filter_options());
        assert(strings_view(statuses@) =~= pipeline_status_options());
        let facets = vec![
            Facet::new("☍", owner, 0),
            Facet::new("⎇", branch_options, 0),
            Facet::new("📅", dates, DEFAULT_DATE_INDEX),
            Facet::new("●", statuses, 0),
        ];
        let ghost fs = facets@;
        let r = FacetedSearchBar::new(facets);
        assert(r.selections() =~= seq![0nat, 0nat, DEFAULT_DATE_INDEX as nat, 0nat]);
        assert forall|i: int| 0 <= i < r.facets_view().len() implies !(#[trigger] r.facets_view()[i]).spec_is_filtered() by {
            assert(r.facets_view()[i] == fs[i]);
        }
        r
    }

    /// A screen over the sample pipelines as of `now`, all shown, the first
    /// selected, with branch options from the sample branches.
    pub fn new_at(now: i64) -> (r: Self)
        requires
            now >= MOCK_EARLIEST_NOW,
        ensures
            r.wf(),
            are_mock_pipelines(r.pipelines@, now),
            r.filtered_pipelines@ == r.pipelines@,
            r.selected_index == Some(0usize),
            r.faceted_search.facets_view()[0].options_view() == owner_filter_options(),
            elements(r.faceted_search.facets_view()[1].options_view().drop_first()) == branches_of(r.pipelines@),
            strictly_sorted(r.faceted_search.facets_view()[1].options_view().drop_first()),
            r.faceted_search.facets_view()[1].options_view()[0] == "All"@,
            r.faceted_search.facets_view()[2].options_view() == date_filter_options(),
            r.faceted_search.facets_view()[3].options_view() == pipeline_status_options(),
            r.faceted_search.selections() == seq![0nat, 0nat, DEFAULT_DATE_INDEX as nat, 0nat],
            !r.faceted_search.spec_is_filtered(),
            r.filter_option(1) == "All"@,
            r.filter_option(2) == "All time"@,
            !r.faceted_search.open(),
            r.search_input.value_view() == Seq::<char>::empty(),
            r.search_input.placeholder_view() == "Filter pipelines..."@,
            !r.search_input.is_focused_spec(),
            !r.filter_active && !r.search_focused && !r.loading && !r.refreshing && !r.loading_workflows,
            r.authenticated_user is None && r.authenticated_user_name is None,
            r.pipeline_workflows@ == Map::<String, Vec<Workflow>>::empty(),
            r.spinner.message_view() == "Loading pipelines..."@,
    {
        let pipelines = mock_pipelines_at(now);
        let mut filtered_pipelines: Vec<Pipeline> = Vec::new();
        let mut i: usize = 0;
        while i < pipelines.len()
            invariant
                i <= pipelines@.len(),
                filtered_pipelines@ == pipelines@.take(i as int),
            decreases pipelines@.len() - i,
        {
            filtered_pipelines.push(pipelines[i].clone());
            i = i + 1;
            assert(filtered_pipelines@ =~= pipelines@.take(i as int));
        }
        assert(pipelines@.take(i as int) =~= pipelines@);
        let branches = unique_branches(&pipelines);
        let ghost bs = strings_view(branches@);
        let faceted_search = Self::initial_filters(branches);
        assert(faceted_search.facets_view()[1].options_view().drop_first() =~= bs);
        let search_input = TextInput::new("Filter pipelines...").with_borders(
            Borders { top: true, bottom: false, left: true, right: true },
        );
        PipelineScreen {
            pipelines,
            filtered_pipelines,
            selected_index: Some(0),
            loading: false,
            search_input,
            faceted_search,
            filter_active: false,
            search_focused: false,
            spinner: Spinner::new("Loading pipelines..."),
            refreshing: false,
            authenticated_user: None,
            authenticated_user_name: None,
            pipeline_workflows: HashMap::new(),
            loading_workflows: false,
        }
    }

    /// Applies the search text, date and status filters at `now` (seconds
    /// since the epoch); the selection stays, moved onto the last pipeline
    /// when past it. Owner and branch are filtered by the API.
    pub fn apply_filters_at(&mut self, now: i64)
        requires
            old(self).wf(),
        ensures
            final(self).wf(),
            old(self).filters_applied(*final(self), now),
    {
        let date = match self.faceted_search.get_filter_value(2) {
            Some(v) => v,
            None => "All time",
        };
        let status = match self.faceted_search.get_filter_value(3) {
            Some(v) => v,
            None => "All",
        };
        let search = to_lower(self.search_input.value());
        let mut r: Vec<Pipeline> = Vec::new();
        let mut i: usize = 0;
        while i < self.pipelines.len()
            invariant
                i <= self.pipelines@.len(),
                date@ == self.filter_option(2),
                status@ == self.filter_option(3),
                search@ == self.search(),
                r@ == filter_pipelines(self.pipelines@.take(i as int), search@, date@, status@, now),
            decreases self.pipelines@.len() - i,
        {
            assert(self.pipelines@.take(i + 1).drop_last() =~= self.pipelines@.take(i as int));
            if pipeline_passes(&self.pipelines[i], search.as_str(), date, status, now) {
                r.push(self.pipelines[i].clone());
            }
            i = i + 1;
        }
        assert(self.pipelines@.take(i as int) =~= self.pipelines@);
        let n = r.len();
        self.filtered_pipelines = r;
        if n == 0 {
            self.selected_index = None;
        } else {
            match self.selected_index {
                Some(idx) => {
                    self.selected_index = Some(if idx < n { idx } else { n - 1 });
                },
                None => {},
            }
        }
    }

    /// Applies the filters as of the current time.
    pub fn apply_filters(&mut self)
        requires
            old(self).wf(),
        ensures
            final(self).wf(),
            exists|now: i64| old(self).filters_applied(*final(self), now),
    {
        let now = unix_now();
        self.apply_filters_at(now);
    }

    /// The branches of all loaded pipelines, each once, in the order of
    /// strings.
    pub fn get_unique_branches(&self) -> (r: Vec<String>)
        ensures
            strictly_sorted(strings_view(r@)),
            elements(strings_view(r@)) == branches_of(self.pipelines@),
    {
        unique_branches(&self.pipelines)
    }

    /// The status summary of the shown pipelines.
    pub fn calculate_status_summary(&self) -> (r: String)
        ensures
            r@ == pipeline_summary_text(
                count_state(self.filtered_pipelines@, succeeded_states()),
                count_state(self.filtered_pipelines@, running_states()),
                count_state(self.filtered_pipelines@, failed_states()),
            ),
    {
        let ps = &self.filtered_pipelines;
        let mut succeeded: usize = 0;
        let mut failed: usize = 0;
        let mut running: usize = 0;
        let mut i: usize = 0;
        while i < ps.len()
            invariant
                i <= ps@.len(),
                succeeded == count_state(ps@.take(i as int), succeeded_states()),
                failed == count_state(ps@.take(i as int), failed_states()),
                running == count_state(ps@.take(i as int), running_states()),
                succeeded <= i && failed <= i && running <= i,
            decreases ps@.len() - i,
        {
            assert(ps@.take(i + 1).drop_last() =~= ps@.take(i as int));
            let st = ps[i].state.as_str();
            proof {
                assert(succeeded_states().contains(st@) <==> st@ == "success"@) by {
                    if st@ == "success"@ {
                        assert(succeeded_states()[0] == st@);
                    }
                }
                assert(failed_states().contains(st@) <==> (st@ == "failed"@ || st@ == "error"@)) by {
                    if st@ == "failed"@ {
                        assert(failed_states()[0] == st@);
                    }
                    if st@ == "error"@ {
                        assert(failed_states()[1] == st@);
                    }
                }
                assert(running_states().contains(st@) <==> st@ == "running"@) by {
                    if st@ == "running"@ {
                        assert(running_states()[0] == st@);
                    }
                }
            }
            if str_eq(st, "success") {
                succeeded = succeeded + 1;
            }
            if str_eq(st, "failed") || str_eq(st, "error") {
                failed = failed + 1;
            }
            if str_eq(st, "running") {
                running = running + 1;
            }
            i = i + 1;
        }
        assert(ps@.take(i as int) =~= ps@);
        proof {
            reveal_strlit("✓ ");
            reveal_strlit("● ");
            reveal_strlit("✗ ");
        }
        let ghost a: Seq<Seq<char>> = if succeeded > 0 { seq!["✓ "@ + decimal(succeeded as nat)] } else { seq![] };
        let ghost b: Seq<Seq<char>> = if running > 0 { a.push("● "@ + decimal(running as nat)) } else { a };
        let ghost c: Seq<Seq<char>> = if failed > 0 { b.push("✗ "@ + decimal(failed as nat)) } else { b };
        let mut parts: Vec<String> = Vec::new();
        if succeeded > 0 {
            parts.push(concat("✓ ", usize_to_string(succeeded).as_str()));
        }
        assert(strings_view(parts@) =~= a);
        if running > 0 {
            parts.push(concat("● ", usize_to_string(running).as_str()));
        }
        assert(strings_view(parts@) =~= b);
        if failed > 0 {
            parts.push(concat("✗ ", usize_to_string(failed).as_str()));
        }
        assert(strings_view(parts@) =~= c);
        join_with(parts.as_slice(), " ")
    }

    /// Moves the selection down, wrapping to the first; nothing happens when
    /// no pipeline is shown.
    pub fn select_next(&mut self)
        ensures
            old(self).filtered_pipelines@.len() == 0 ==> *final(self) == *old(self),
            old(self).filtered_pipelines@.len() > 0 ==> *final(self) == (PipelineScreen {
                selected_index: Some(next_index(old(self).selected_index, old(self).filtered_pipelines@.len())),
                ..*old(self)
            }),
    {
        let n = self.filtered_pipelines.len();
        if n == 0 {
            return;
        }
        let i = match self.selected_index {
            Some(i) => if i >= n - 1 {
                0
            } else {
                i + 1
            },
            None => 0,
        };
        self.selected_index = Some(i);
    }

    /// Moves the selection up, wrapping to the last; nothing happens when
    /// no pipeline is shown.
    pub fn select_previous(&mut self)
        ensures
            old(self).filtered_pipelines@.len() == 0 ==> *final(self) == *old(self),
            old(self).filtered_pipelines@.len() > 0 ==> *final(self) == (PipelineScreen {
                selected_index: Some(previous_index(old(self).selected_index, old(self).filtered_pipelines@.len())),
                ..*old(self)
            }),
    {
        let n = self.filtered_pipelines.len();
        if n == 0 {
            return;
        }
        let i = match self.selected_index {
            Some(i) => if i == 0 {
                n - 1
            } else {
                i - 1
            },
            None => 0,
        };
        self.selected_index = Some(i);
    }

    /// The selected pipeline, if the selection points at a shown one.
    pub fn get_selected_pipeline(&self) -> (r: Option<&Pipeline>)
        ensures
            r == match self.selected_index {
                Some(i) => if i < self.filtered_pipelines@.len() {
                    Some(&self.filtered_pipelines@[i as int])
                } else {
                    None
                },
                None => None,
            },
    {
        match self.selected_index {
            Some(i) => if i < self.filtered_pipelines.len() {
                Some(&self.filtered_pipelines[i])
            } else {
                None
            },
            None => None,
        }
    }

    /// Replaces the workflows shown beside pipelines, which are then loaded.
    pub fn set_pipeline_workflows(&mut self, workflows: HashMap<String, Vec<Workflow>>)
        ensures
            *final(self) == (PipelineScreen {
                pipeline_workflows: workflows,
                loading_workflows: false,
                ..*old(self)
            }),
    {
        self.pipeline_workflows = workflows;
        self.loading_workflows = false;
    }
}


/// `g` is the branch filter `f` with its options rebuilt from the branches
/// of `ps`: "All" and then each branch once, in order; the selected branch
/// stays selected when it is still there.
pub open spec fn branch_facet_refreshed(f: Facet, g: Facet, ps: Seq<Pipeline>) -> bool {
    let opts = g.options_view();
    let current = f.options_view()[f.selected() as int];
    &&& opts.len() > 0
    &&& opts[0] == "All"@
    &&& strictly_sorted(opts.drop_first())
    &&& elements(opts.drop_first()) == branches_of(ps)
    &&& g.icon_view() == f.icon_view()
    &&& g.default() == f.default()
    &&& g.wf()
    &&& if absent(opts, current) {
        g.selected() == if f.default() < opts.len() { f.default() } else { (opts.len() - 1) as nat }
    } else {
        is_first_index(opts, current, g.selected() as int)
    }
}

impl PipelineScreen {
    /// `n` is this screen with the branch filter rebuilt from `ps`, and
    /// nothing else changed.
    pub open spec fn branches_refreshed(self, n: Self, ps: Seq<Pipeline>) -> bool {
        let o = self.faceted_search;
        let b = n.faceted_search;
        &&& branch_facet_refreshed(o.facets_view()[1], b.facets_view()[1], ps)
        &&& b.facets_view().len() == o.facets_view().len()
        &&& forall|i: int| 0 <= i < o.facets_view().len() && i != 1 ==> #[trigger] b.facets_view()[i] == o.facets_view()[i]
        &&& b.active() == o.active()
        &&& b.open() == o.open()
        &&& b.focus() == o.focus()
        &&& n == (PipelineScreen { faceted_search: b, ..self })
    }

    /// `n` is this screen with its pipelines replaced by `ps`, the branch
    /// filter rebuilt from them and the filters applied at `now`.
    pub open spec fn pipelines_replaced(self, n: Self, ps: Vec<Pipeline>, now: i64) -> bool {
        let mid = PipelineScreen { pipelines: ps, faceted_search: n.faceted_search, ..self };
        &&& (PipelineScreen { pipelines: ps, ..self }).branches_refreshed(mid, ps@)
        &&& mid.filters_applied(n, now)
    }

    /// Rebuilds the branch filter from the loaded pipelines.
    fn update_branch_filter(&mut self)
        requires
            old(self).wf(),
        ensures
            final(self).wf(),
            old(self).branches_refreshed(*final(self), old(self).pipelines@),
    {
        let branches = self.get_unique_branches();
        let ghost bs = strings_view(branches@);
        let mut options = vec![owned("All")];
        let mut more = branches;
        options.append(&mut more);
        assert(strings_view(options@).drop_first() =~= bs);
        let current = match self.faceted_search.get_filter_value(1) {
            Some(v) => owned(v),
            None => owned("All"),
        };
        let ghost before = self.faceted_search;
        self.faceted_search.update_facet_options(1, options);
        let ghost mid = self.faceted_search;
        let found = self.faceted_search.set_facet_selection_by_value(1, current.as_str());
        proof {
            let f = before.facets_view()[1];
            let g = mid.facets_view()[1];
            let h = self.faceted_search.facets_view()[1];
            assert(f.options_view()[f.selected() as int] == current@);
            assert(before.facets_view()[1].wf());
            if found {
                let k = choose|k: int| is_first_index(g.options_view(), current@, k) && g.with_selection(h, k as nat)
                    && mid.with_facet(self.faceted_search, 1, h);
                assert(!absent(g.options_view(), current@));
                assert(k == g.selected());
            }
            assert forall|i: int| 0 <= i < before.facets_view().len() && i != 1 implies #[trigger] self.faceted_search.facets_view()[i]
                == before.facets_view()[i] by {
                assert(mid.facets_view()[i] == before.facets_view()[i]);
            }
            assert forall|i: int| 0 <= i < self.faceted_search.facets_view().len() implies #[trigger] self.faceted_search.facets_view()[i].default_in_range() by {
                if i != 1 {
                    assert(before.facets_view()[i].default_in_range());
                }
            }
        }
    }

    /// Replaces the pipelines at `now`: the branch filter is rebuilt from
    /// their branches and the filters are applied.
    pub fn set_pipelines_at(&mut self, pipelines: Vec<Pipeline>, now: i64)
        requires
            old(self).wf(),
        ensures
            final(self).wf(),
            final(self).pipelines == pipelines,
            old(self).pipelines_replaced(*final(self), pipelines, now),
    {
        self.pipelines = pipelines;
        self.update_branch_filter();
        self.apply_filters_at(now);
    }

    /// Replaces the pipelines, filtering as of the current time.
    pub fn set_pipelines(&mut self, pipelines: Vec<Pipeline>)
        requires
            old(self).wf(),
        ensures
            final(self).wf(),
            final(self).pipelines == pipelines,
            exists|now: i64| #[trigger] old(self).pipelines_replaced(*final(self), pipelines, now),
    {
        let now = unix_now();
        self.set_pipelines_at(pipelines, now);
    }

    /// The filter selections and search text to save; the branch is saved
    /// unless it is "All".
    pub fn get_filter_preferences(&self) -> (r: PipelineFilterPrefs)
        requires
            self.wf(),
        ensures
            self.saved_as(r),
    {
        let branch = match self.faceted_search.get_filter_value(1) {
            Some(b) => if str_eq(b, "All") {
                None
            } else {
                Some(owned(b))
            },
            None => None,
        };
        PipelineFilterPrefs {
            owner_index: self.faceted_search.get_facet_selection(0),
            branch,
            date_index: self.faceted_search.get_facet_selection(2),
            status_index: self.faceted_search.get_facet_selection(3),
            search_text: owned(self.search_input.value()),
        }
    }
}


impl PipelineScreen {
    /// `n` is this screen after `key` in the search box: Esc empties a
    /// non-empty search (and filters again) or leaves an empty one, Tab
    /// moves to the filter buttons, other keys edit the text.
    pub open spec fn search_key_step(self, n: Self, key: KeyCode, now: i64) -> bool {
        match key {
            KeyCode::Esc => if self.search_input.value_view().len() == 0 {
                n == (PipelineScreen { search_focused: false, ..self })
            } else {
                &&& self.search_input.edited(n.search_input, Seq::<char>::empty(), 0)
                &&& (PipelineScreen { search_input: n.search_input, ..self }).filters_applied(n, now)
            },
            KeyCode::Tab => n == (PipelineScreen { search_focused: false, filter_active: true, ..self }),
            _ => {
                &&& self.search_input.key_step(n.search_input, key)
                &&& if self.search_input.key_handled(key) {
                    (PipelineScreen { search_input: n.search_input, ..self }).filters_applied(n, now)
                } else {
                    n == (PipelineScreen { search_input: n.search_input, ..self })
                }
            },
        }
    }

    /// `n` is this screen after `key` on the filter buttons: Esc leaves them
    /// and filters again, Shift+Tab moves to the search box, other keys go
    /// to the buttons and filter again when they changed something.
    pub open spec fn filter_bar_key_step(self, n: Self, key: KeyCode, now: i64) -> bool {
        match key {
            KeyCode::Esc => (PipelineScreen { filter_active: false, ..self }).filters_applied(n, now),
            KeyCode::BackTab => n == (PipelineScreen { filter_active: false, search_focused: true, ..self }),
            _ => {
                &&& self.faceted_search.key_step(n.faceted_search, key)
                &&& if self.faceted_search.key_handled(key) {
                    (PipelineScreen { faceted_search: n.faceted_search, ..self }).filters_applied(n, now)
                } else {
                    n == (PipelineScreen { faceted_search: n.faceted_search, ..self })
                }
            },
        }
    }

    /// `n` and `open` follow `key` on the pipeline list: arrows move the
    /// selection, Enter opens the selected pipeline, 'r' reloads the sample
    /// pipelines, '/' and 'f' move to the search box and the filter buttons,
    /// Esc resets every filter and the search.
    pub open spec fn list_key_step(self, n: Self, key: KeyCode, now: i64, open: bool) -> bool {
        let len = self.filtered_pipelines@.len();
        match key {
            KeyCode::Up => !open && n == if len == 0 {
                self
            } else {
                PipelineScreen { selected_index: Some(previous_index(self.selected_index, len)), ..self }
            },
            KeyCode::Down => !open && n == if len == 0 {
                self
            } else {
                PipelineScreen { selected_index: Some(next_index(self.selected_index, len)), ..self }
            },
            KeyCode::Enter => open == (self.selected_index is Some) && n == self,
            KeyCode::Char('r') => {
                &&& !open
                &&& are_mock_pipelines(n.pipelines@, now)
                &&& n.spinner.wf()
                &&& n.spinner.message_view() == "Refreshing..."@
                &&& n.spinner.frame() == self.spinner.frame()
                &&& n.spinner.shows_elapsed() == self.spinner.shows_elapsed()
                &&& (PipelineScreen { pipelines: n.pipelines, spinner: n.spinner, refreshing: true, ..self }).filters_applied(n, now)
            },
            KeyCode::Char('/') => !open && n == (PipelineScreen { search_focused: true, ..self }),
            KeyCode::Char('f') => !open && n == (PipelineScreen { filter_active: true, ..self }),
            KeyCode::Esc => {
                let b = n.faceted_search;
                let o = self.faceted_search;
                &&& !open
                &&& b.facets_view().len() == o.facets_view().len()
                &&& forall|i: int| 0 <= i < o.facets_view().len() ==> o.facets_view()[i].with_selection(
                    #[trigger] b.facets_view()[i],
                    o.facets_view()[i].default(),
                )
                &&& b.active() == o.active() && b.open() == o.open() && b.focus() == o.focus()
                &&& self.search_input.edited(n.search_input, Seq::<char>::empty(), 0)
                &&& (PipelineScreen { faceted_search: b, search_input: n.search_input, ..self }).filters_applied(n, now)
            },
            _ => !open && n == self,
        }
    }

    /// `n` and `open` follow `key` at `now`, wherever the keyboard is.
    pub open spec fn input_step(self, n: Self, key: KeyCode, now: i64, open: bool) -> bool {
        &&& self.search_focused ==> !open && self.search_key_step(n, key, now)
        &&& !self.search_focused && self.filter_active ==> !open && self.filter_bar_key_step(n, key, now)
        &&& !self.search_focused && !self.filter_active ==> self.list_key_step(n, key, now, open)
    }

    /// Handles a key at `now`: the search box takes it while it has the
    /// keyboard, then the filter buttons, then the list. Returns whether the
    /// selected pipeline should be opened.
    pub fn handle_input_at(&mut self, key: KeyEvent, now: i64) -> (open: bool)
        requires
            old(self).wf(),
            old(self).search_input.value_view().len() < usize::MAX,
            !old(self).search_focused && old(self).filter_active ==> old(self).faceted_search.accepts_key(key.code),
            now >= MOCK_EARLIEST_NOW,
        ensures
            final(self).wf(),
            old(self).input_step(*final(self), key.code, now, open),
    {
        if self.search_focused {
            match key.code {
                KeyCode::Esc => {
                    if self.search_input.is_empty() {
                        self.search_focused = false;
                    } else {
                        self.search_input.clear();
                        self.apply_filters_at(now);
                    }
                },
                KeyCode::Tab => {
                    self.search_focused = false;
                    self.filter_active = true;
                },
                _ => {
                    let handled = self.search_input.handle_key(key.code);
                    if handled {
                        self.apply_filters_at(now);
                    }
                },
            }
            false
        } else if self.filter_active {
            match key.code {
                KeyCode::Esc => {
                    self.filter_active = false;
                    self.apply_filters_at(now);
                },
                KeyCode::BackTab => {
                    self.filter_active = false;
                    self.search_focused = true;
                },
                _ => {
                    let handled = self.faceted_search.handle_key(key.code);
                    if handled {
                        self.apply_filters_at(now);
                    }
                },
            }
            false
        } else {
            match key.code {
                KeyCode::Up => {
                    self.select_previous();
                    false
                },
                KeyCode::Down => {
                    self.select_next();
                    false
                },
                KeyCode::Enter => self.selected_index.is_some(),
                KeyCode::Char('r') => {
                    self.refreshing = true;
                    self.spinner.set_message("Refreshing...");
                    self.pipelines = mock_pipelines_at(now);
                    self.apply_filters_at(now);
                    false
                },
                KeyCode::Char('/') => {
                    self.search_focused = true;
                    false
                },
                KeyCode::Char('f') => {
                    self.filter_active = true;
                    false
                },
                KeyCode::Esc => {
                    self.faceted_search.reset_filters();
                    self.search_input.clear();
                    self.apply_filters_at(now);
                    false
                },
                _ => false,
            }
        }
    }

    /// Handles a key as of the current time.
    pub fn handle_input(&mut self, key: KeyEvent) -> (open: bool)
        requires
            old(self).wf(),
            old(self).search_input.value_view().len() < usize::MAX,
            !old(self).search_focused && old(self).filter_active ==> old(self).faceted_search.accepts_key(key.code),
        ensures
            final(self).wf(),
            exists|now: i64| now >= MOCK_EARLIEST_NOW && #[trigger] old(self).input_step(*final(self), key.code, now, open),
    {
        let t = unix_now();
        let now = if t < MOCK_EARLIEST_NOW { MOCK_EARLIEST_NOW } else { t };
        self.handle_input_at(key, now)
    }

    /// Gives the search box focus exactly while it has the keyboard.
    pub fn sync_search_focus(&mut self)
        requires
            old(self).wf(),
        ensures
            final(self).wf(),
            final(self).search_input.is_focused_spec() == old(self).search_focused,
            final(self).search_input.value_view() == old(self).search_input.value_view(),
            *final(self) == (PipelineScreen { search_input: final(self).search_input, ..*old(self) }),
    {
        let focused = self.search_focused;
        self.search_input.set_focused(focused);
    }
}


impl PipelineScreen {
    /// A screen over the sample pipelines as of now, all shown, the first
    /// selected.
    pub fn new() -> (r: Self)
        ensures
            r.wf(),
            exists|now: i64| now >= MOCK_EARLIEST_NOW && #[trigger] are_mock_pipelines(r.pipelines@, now),
            r.filtered_pipelines@ == r.pipelines@,
            r.pipelines@.len() == MOCK_PIPELINE_COUNT,
            r.selected_index == Some(0usize),
            r.has_standard_filters(),
            r.faceted_search.facets_view()[1].options_view()[0] == "All"@,
            r.faceted_search.selections() == seq![0nat, 0nat, DEFAULT_DATE_INDEX as nat, 0nat],
            !r.faceted_search.spec_is_filtered(),
            r.filter_option(0) == "All pipelines"@,
            r.filter_option(1) == "All"@,
            r.filter_option(2) == "All time"@,
            r.filter_option(3) == "All"@,
            !r.faceted_search.open(),
            r.search_input.value_view() == Seq::<char>::empty(),
            !r.filter_active && !r.search_focused && !r.loading && !r.refreshing,
    {
        let t = unix_now();
        let now = if t < MOCK_EARLIEST_NOW { MOCK_EARLIEST_NOW } else { t };
        Self::new_at(now)
    }

    /// A screen at `now` with saved filters: the saved owner, date and
    /// status options are selected when they exist, the saved branch is
    /// selected (added after "All" when it is not an option), the saved
    /// search text is filled in, and the filters are applied.
    pub fn with_preferences_at(
        prefs: &PipelineFilterPrefs,
        authenticated_user: Option<String>,
        authenticated_user_name: Option<String>,
        now: i64,
    ) -> (r: Self)
        requires
            now >= MOCK_EARLIEST_NOW,
            prefs.search_text@.len() <= usize::MAX,
        ensures
            r.wf(),
            are_mock_pipelines(r.pipelines@, now),
            r.authenticated_user == authenticated_user,
            r.authenticated_user_name == authenticated_user_name,
            r.restored_from(*prefs),
            r.filtered_pipelines@ == r.filtered_at(now),
            r.selected_index == clamped_selection(Some(0usize), r.filtered_at(now).len()),
            !r.filter_active && !r.search_focused,
    {
        let mut screen = Self::new_at(now);
        screen.authenticated_user = authenticated_user;
        screen.authenticated_user_name = authenticated_user_name;
        screen.faceted_search.set_facet_selection(0, prefs.owner_index);
        screen.faceted_search.set_facet_selection(2, prefs.date_index);
        screen.faceted_search.set_facet_selection(3, prefs.status_index);
        let ghost before = screen.faceted_search;
        match &prefs.branch {
            Some(branch) => {
                screen.faceted_search.add_and_select_option(1, branch.clone());
                proof {
                    let f = before.facets_view()[1];
                    let g = screen.faceted_search.facets_view()[1];
                    assert(f.wf());
                    if absent(f.options_view(), branch@) {
                        assert(g.options_view()[1] == branch@);
                    }
                    assert forall|i: int| 0 <= i < 4 implies #[trigger] screen.faceted_search.facets_view()[i].default_in_range() by {
                        assert(before.facets_view()[i].default_in_range());
                    }
                }
            },
            None => {},
        }
        screen.search_input.set_value(prefs.search_text.clone());
        screen.apply_filters_at(now);
        screen
    }

    /// A screen with saved filters, as of now.
    pub fn with_preferences(
        prefs: &PipelineFilterPrefs,
        authenticated_user: Option<String>,
        authenticated_user_name: Option<String>,
    ) -> (r: Self)
        requires
            prefs.search_text@.len() <= usize::MAX,
        ensures
            r.wf(),
            r.authenticated_user == authenticated_user,
            r.authenticated_user_name == authenticated_user_name,
            r.search_input.value_view() == prefs.search_text@,
            exists|now: i64| now >= MOCK_EARLIEST_NOW && #[trigger] are_mock_pipelines(r.pipelines@, now)
                && r.filtered_pipelines@ == r.filtered_at(now),
    {
        let t = unix_now();
        let now = if t < MOCK_EARLIEST_NOW { MOCK_EARLIEST_NOW } else { t };
        Self::with_preferences_at(prefs, authenticated_user, authenticated_user_name, now)
    }
}

impl Default for PipelineScreen {
    fn default() -> (r: Self)
        ensures
            r.wf(),
            r.selected_index == Some(0usize),
    {
        PipelineScreen::new()
    }
}


/// How long ago something happened, `secs` seconds back: "45s ago",
/// "12m ago", "3h ago" or "2d ago", in whole units.
pub open spec fn time_ago_text(secs: int) -> Seq<char> {
    if secs < 60 {
        signed_decimal(secs) + "s ago"@
    } else if secs < 3600 {
        decimal((secs / 60) as nat) + "m ago"@
    } else if secs < 86400 {
        decimal((secs / 3600) as nat) + "h ago"@
    } else {
        decimal((secs / 86400) as nat) + "d ago"@
    }
}

/// A span of `secs` seconds: "45s", "12m" or "2h 5m", in whole units.
pub open spec fn span_text(secs: int) -> Seq<char> {
    if secs < 60 {
        signed_decimal(secs) + "s"@
    } else if secs < 3600 {
        decimal((secs / 60) as nat) + "m"@
    } else {
        decimal((secs / 3600) as nat) + "h "@ + decimal(((secs % 3600) / 60) as nat) + "m"@
    }
}

/// How long ago a moment was, by what the numbers mean: under a minute,
/// its seconds; then the whole minutes M (M*60 <= secs < (M+1)*60) under
/// an hour, the whole hours H under a day, and the whole days D after.
pub proof fn law_time_ago_units(secs: int)
    ensures
        secs < 60 ==> time_ago_text(secs) == signed_decimal(secs) + "s ago"@,
        forall|m: nat|
            60 <= secs < 3600 && m * 60 <= secs < (m + 1) * 60 ==> #[trigger] time_ago_text(secs) == decimal(m)
                + "m ago"@,
        forall|h: nat|
            3600 <= secs < 86400 && h * 3600 <= secs < (h + 1) * 3600 ==> #[trigger] time_ago_text(secs)
                == decimal(h) + "h ago"@,
        forall|d: nat|
            secs >= 86400 && d * 86400 <= secs < (d + 1) * 86400 ==> #[trigger] time_ago_text(secs) == decimal(d)
                + "d ago"@,
{
    assert forall|m: nat| 60 <= secs < 3600 && m * 60 <= secs < (m + 1) * 60 implies #[trigger] time_ago_text(secs)
        == decimal(m) + "m ago"@ by {
        vstd::arithmetic::div_mod::lemma_fundamental_div_mod_converse(secs, 60, m as int, secs - m * 60);
    }
    assert forall|h: nat|
        3600 <= secs < 86400 && h * 3600 <= secs < (h + 1) * 3600 implies #[trigger] time_ago_text(secs)
            == decimal(h) + "h ago"@ by {
        vstd::arithmetic::div_mod::lemma_fundamental_div_mod_converse(secs, 3600, h as int, secs - h * 3600);
    }
    assert forall|d: nat| secs >= 86400 && d * 86400 <= secs < (d + 1) * 86400 implies #[trigger] time_ago_text(secs)
        == decimal(d) + "d ago"@ by {
        vstd::arithmetic::div_mod::lemma_fundamental_div_mod_converse(secs, 86400, d as int, secs - d * 86400);
    }
}

/// A span, by what the numbers mean: under a minute, its seconds; under an
/// hour, the whole minutes M (M*60 <= secs < (M+1)*60); from an hour on,
/// "Hh Mm" where H hours and M minutes (M < 60) account for it to within a
/// minute.
pub proof fn law_span_units(secs: int)
    ensures
        secs < 60 ==> span_text(secs) == signed_decimal(secs) + "s"@,
        forall|m: nat|
            60 <= secs < 3600 && m * 60 <= secs < (m + 1) * 60 ==> #[trigger] span_text(secs) == decimal(m) + "m"@,
        forall|h: nat, m: nat|
            #![trigger decimal(h), decimal(m)]
            secs >= 3600 && m < 60 && h * 3600 + m * 60 <= secs < h * 3600 + (m + 1) * 60 ==> span_text(secs)
                == decimal(h) + "h "@ + decimal(m) + "m"@,
{
    assert forall|m: nat| 60 <= secs < 3600 && m * 60 <= secs < (m + 1) * 60 implies #[trigger] span_text(secs)
        == decimal(m) + "m"@ by {
        vstd::arithmetic::div_mod::lemma_fundamental_div_mod_converse(secs, 60, m as int, secs - m * 60);
    }
    assert forall|h: nat, m: nat|
        #![trigger decimal(h), decimal(m)]
        secs >= 3600 && m < 60 && h * 3600 + m * 60 <= secs < h * 3600 + (m + 1) * 60 implies span_text(secs)
            == decimal(h) + "h "@ + decimal(m) + "m"@ by {
        let r = secs - h * 3600;
        vstd::arithmetic::div_mod::lemma_fundamental_div_mod_converse(secs, 3600, h as int, r);
        vstd::arithmetic::div_mod::lemma_fundamental_div_mod_converse(r, 60, m as int, r - m * 60);
    }
}

/// How long before `now` the moment `timestamp` was (both in seconds since
/// the epoch).
pub fn format_time_ago(timestamp: i64, now: i64) -> (r: String)
    ensures
        r@ == time_ago_text(now - timestamp),
{
    let secs: i128 = now as i128 - timestamp as i128;
    if secs < 60 {
        concat(i128_to_string(secs).as_str(), "s ago")
    } else if secs < 3600 {
        concat(u64_to_string((secs / 60) as u64).as_str(), "m ago")
    } else if secs < 86400 {
        concat(u64_to_string((secs / 3600) as u64).as_str(), "h ago")
    } else {
        concat(u64_to_string((secs / 86400) as u64).as_str(), "d ago")
    }
}

/// The time from `start` to `end` (seconds since the epoch).
pub fn format_duration(start: i64, end: i64) -> (r: String)
    ensures
        r@ == span_text(end - start),
{
    let secs: i128 = end as i128 - start as i128;
    if secs < 60 {
        concat(i128_to_string(secs).as_str(), "s")
    } else if secs < 3600 {
        concat(u64_to_string((secs / 60) as u64).as_str(), "m")
    } else {
        let h = concat(u64_to_string((secs / 3600) as u64).as_str(), "h ");
        let m = u64_to_string(((secs % 3600) / 60) as u64);
        concat(concat(h.as_str(), m.as_str()).as_str(), "m")
    }
}

/// Saving a screen's filters and building a screen from what was saved
/// gives back the same filter selections and search text.
pub proof fn law_saved_filters_restore(s: PipelineScreen, p: PipelineFilterPrefs, t: PipelineScreen)
    requires
        s.wf(),
        s.has_standard_filters(),
        s.saved_as(p),
        t.restored_from(p),
    ensures
        forall|i: int| 0 <= i < 4 ==> #[trigger] t.filter_option(i) == s.filter_option(i),
        t.search_input.value_view() == s.search_input.value_view(),
{
    assert(s.faceted_search.facets_view()[0].wf());
    assert(s.faceted_search.facets_view()[2].wf());
    assert(s.faceted_search.facets_view()[3].wf());
    assert forall|i: int| 0 <= i < 4 implies #[trigger] t.filter_option(i) == s.filter_option(i) by {
        if i == 1 {
            match p.branch {
                Some(b) => {},
                None => {},
            }
        }
    }
}

/// The status icons of workflows, in order.
pub open spec fn icons_of(ws: Seq<Workflow>) -> Seq<char>
    decreases ws.len(),
{
    if ws.len() == 0 {
        seq![]
    } else {
        icons_of(ws.drop_last()) + icon_of(status_kind_of(lowercase(ws.last().status@)))
    }
}

/// The stage column of a pipeline row: "····" while its workflows are
/// loading, "----" when it has none, otherwise the icons of its first five
/// workflows, with "…" when there are more.
pub open spec fn stage_icons_text(workflows: Option<Seq<Workflow>>) -> Seq<char> {
    match workflows {
        None => "····"@,
        Some(ws) => if ws.len() == 0 {
            "----"@
        } else if ws.len() > 5 {
            icons_of(ws.take(5)) + "…"@
        } else {
            icons_of(ws)
        },
    }
}

/// A commit revision as shown: its first seven characters.
pub open spec fn short_sha(s: Seq<char>) -> Seq<char> {
    if s.len() >= 7 { s.take(7) } else { s }
}

/// The metadata line of a pipeline row: branch, short revision, author,
/// a "scheduled" tag for scheduled pipelines and the number, joined by
/// "  ∙  ".
pub open spec fn metadata_text(p: Pipeline) -> Seq<char> {
    "⎇  "@ + p.vcs.branch@ + "  ∙  "@ + short_sha(p.vcs.revision@) + "  ∙  @"@ + p.vcs.commit_author_name@ + (
    if p.trigger.trigger_type@ == "scheduled"@ { "  ∙  🏷 scheduled"@ } else { seq![] }) + "  ∙  #"@ + decimal(
        p.number as nat,
    )
}

/// The stage column of a pipeline row.
pub fn stage_icons(workflows: Option<&Vec<Workflow>>) -> (r: String)
    ensures
        r@ == stage_icons_text(
            match workflows {
                Some(w) => Some(w@),
                None => None,
            },
        ),
{
    match workflows {
        None => owned("····"),
        Some(ws) => {
            if ws.len() == 0 {
                return owned("----");
            }
            let n = if ws.len() > 5 { 5 } else { ws.len() };
            let mut r = String::new();
            let mut i: usize = 0;
            assert(ws@.take(0) =~= Seq::<Workflow>::empty());
            while i < n
                invariant
                    i <= n,
                    n <= ws@.len(),
                    r@ == icons_of(ws@.take(i as int)),
                decreases n - i,
            {
                assert(ws@.take(i + 1).drop_last() =~= ws@.take(i as int));
                r = concat(r.as_str(), get_status_icon(ws[i].status.as_str()));
                i = i + 1;
            }
            if ws.len() > 5 {
                concat(r.as_str(), "…")
            } else {
                assert(ws@.take(n as int) =~= ws@);
                r
            }
        },
    }
}

/// The metadata line of a pipeline row.
pub fn pipeline_metadata(p: &Pipeline) -> (r: String)
    ensures
        r@ == metadata_text(*p),
{
    let rev = p.vcs.revision.as_str();
    let sha = if rev.unicode_len() >= 7 {
        let cut = rev.substring_char(0, 7);
        assert(cut@ =~= rev@.take(7));
        cut
    } else {
        rev
    };
    let a = concat("⎇  ", p.vcs.branch.as_str());
    let b = concat(a.as_str(), "  ∙  ");
    let c = concat(b.as_str(), sha);
    let d = concat(c.as_str(), "  ∙  @");
    let e = concat(d.as_str(), p.vcs.commit_author_name.as_str());
    let f = if str_eq(p.trigger.trigger_type.as_str(), "scheduled") {
        concat(e.as_str(), "  ∙  🏷 scheduled")
    } else {
        proof {
            assert(e@ + Seq::<char>::empty() =~= e@);
        }
        e
    };
    let g = concat(f.as_str(), "  ∙  #");
    concat(g.as_str(), u64_to_string(p.number as u64).as_str())
}

} // verus!
