//! Sample pipelines, shown until the first page arrives from the API.

use vstd::prelude::*;
use crate::api::models::{Pipeline, TriggerInfo, VcsInfo};
use crate::clock::unix_now;
use crate::text::owned;

verus! {

/// Ids of the sample pipelines.
pub open spec fn mock_ids() -> Seq<Seq<char>> {
    seq![
        "pipe-001"@,
        "pipe-002"@,
        "pipe-003"@,
        "pipe-004"@,
        "pipe-005"@,
        "pipe-006"@,
        "pipe-007"@,
        "pipe-008"@,
    ]
}

/// States of the sample pipelines.
pub open spec fn mock_states() -> Seq<Seq<char>> {
    seq![
        "success"@,
        "running"@,
        "failed"@,
        "success"@,
        "pending"@,
        "success"@,
        "failed"@,
        "success"@,
    ]
}

/// Branches of the sample pipelines.
pub open spec fn mock_branches() -> Seq<Seq<char>> {
    seq![
        "main"@,
        "feat/oauth"@,
        "fix/memory-leak"@,
        "main"@,
        "feat/metrics"@,
        "main"@,
        "fix/database-conn"@,
        "main"@,
    ]
}

/// Revisions of the sample pipelines.
pub open spec fn mock_revisions() -> Seq<Seq<char>> {
    seq![
        "a1b2c3d"@,
        "e4f5g6h"@,
        "i7j8k9l"@,
        "m0n1o2p"@,
        "q3r4s5t"@,
        "u6v7w8x"@,
        "y9z0a1b"@,
        "c2d3e4f"@,
    ]
}

/// Commit subjects of the sample pipelines.
pub open spec fn mock_subjects() -> Seq<Seq<char>> {
    seq![
        "feat: add webhook retry logic"@,
        "fix: rate limiter edge case"@,
        "fix: memory leak in connection pool"@,
        "chore: bump deps"@,
        "feat: add prometheus metrics"@,
        "docs: update API documentation"@,
        "fix: database connection timeout"@,
        "perf: optimize query performance"@,
    ]
}

/// Commit authors of the sample pipelines.
pub open spec fn mock_authors() -> Seq<Seq<char>> {
    seq![
        "alice"@,
        "bob"@,
        "charlie"@,
        "dave"@,
        "alice"@,
        "bob"@,
        "charlie"@,
        "dave"@,
    ]
}

/// Triggers of the sample pipelines.
pub open spec fn mock_triggers() -> Seq<Seq<char>> {
    seq![
        "webhook"@,
        "webhook"@,
        "webhook"@,
        "scheduled"@,
        "api"@,
        "webhook"@,
        "webhook"@,
        "webhook"@,
    ]
}

/// Seconds before now at which each sample pipeline was created.
pub open spec fn mock_created_ago() -> Seq<int> {
    seq![
        7200,
        2700,
        14400,
        21600,
        120,
        28800,
        36000,
        43200,
    ]
}

/// Seconds before now at which each sample pipeline was last updated.
pub open spec fn mock_updated_ago() -> Seq<int> {
    seq![
        6300,
        300,
        13800,
        21120,
        120,
        28440,
        35280,
        42960,
    ]
}

/// Seconds before now of each sample pipeline's commit.
pub open spec fn mock_commit_ago() -> Seq<int> {
    seq![
        7500,
        3000,
        15000,
        21720,
        300,
        28980,
        36480,
        43440,
    ]
}

/// Number of sample pipelines.
pub const MOCK_PIPELINE_COUNT: usize = 8;

/// Earliest clock reading the sample data can be built for.
pub const MOCK_EARLIEST_NOW: i64 = -9223372036854689408;

/// `p` is sample pipeline `i` as of `now`: numbered from 1234, in the
/// "gh/acme/api-service" project.
pub open spec fn is_mock_pipeline(p: Pipeline, i: int, now: i64) -> bool {
    &&& p.id@ == mock_ids()[i]
    &&& p.number == 1234 + i
    &&& p.state@ == mock_states()[i]
    &&& p.created_at == now - mock_created_ago()[i]
    &&& p.updated_at == now - mock_updated_ago()[i]
    &&& p.vcs.branch@ == mock_branches()[i]
    &&& p.vcs.revision@ == mock_revisions()[i]
    &&& p.vcs.commit_subject@ == mock_subjects()[i]
    &&& p.vcs.commit_author_name@ == mock_authors()[i]
    &&& p.vcs.commit_timestamp == now - mock_commit_ago()[i]
    &&& p.trigger.trigger_type@ == mock_triggers()[i]
    &&& p.project_slug@ == "gh/acme/api-service"@
}

/// The sample pipelines as of `now`.
pub open spec fn are_mock_pipelines(ps: Seq<Pipeline>, now: i64) -> bool {
    &&& ps.len() == MOCK_PIPELINE_COUNT
    &&& forall|i: int| 0 <= i < MOCK_PIPELINE_COUNT ==> #[trigger] is_mock_pipeline(ps[i], i, now)
}

fn sample(
    id: &str,
    number: u32,
    state: &str,
    created_ago: i64,
    updated_ago: i64,
    branch: &str,
    revision: &str,
    subject: &str,
    author: &str,
    commit_ago: i64,
    trigger: &str,
    now: i64,
) -> (p: Pipeline)
    requires
        0 <= created_ago <= 86400,
        0 <= updated_ago <= 86400,
        0 <= commit_ago <= 86400,
        now >= MOCK_EARLIEST_NOW,
    ensures
        p.id@ == id@,
        p.number == number,
        p.state@ == state@,
        p.created_at == now - created_ago,
        p.updated_at == now - updated_ago,
        p.vcs.branch@ == branch@,
        p.vcs.revision@ == revision@,
        p.vcs.commit_subject@ == subject@,
        p.vcs.commit_author_name@ == author@,
        p.vcs.commit_timestamp == now - commit_ago,
        p.trigger.trigger_type@ == trigger@,
        p.project_slug@ == "gh/acme/api-service"@,
{
    Pipeline {
        id: owned(id),
        number,
        state: owned(state),
        created_at: now - created_ago,
        updated_at: now - updated_ago,
        vcs: VcsInfo {
            branch: owned(branch),
            revision: owned(revision),
            commit_subject: owned(subject),
            commit_author_name: owned(author),
            commit_timestamp: now - commit_ago,
        },
        trigger: TriggerInfo { trigger_type: owned(trigger) },
        project_slug: owned("gh/acme/api-service"),
    }
}

/// The sample pipelines as of the clock reading `now` (seconds since the
/// epoch).
pub fn mock_pipelines_at(now: i64) -> (r: Vec<Pipeline>)
    requires
        now >= MOCK_EARLIEST_NOW,
    ensures
        are_mock_pipelines(r@, now),
{
    let r = vec![
        sample("pipe-001", 1234, "success", 7200, 6300, "main", "a1b2c3d", "feat: add webhook retry logic", "alice", 7500, "webhook", now),
        sample("pipe-002", 1235, "running", 2700, 300, "feat/oauth", "e4f5g6h", "fix: rate limiter edge case", "bob", 3000, "webhook", now),
        sample("pipe-003", 1236, "failed", 14400, 13800, "fix/memory-leak", "i7j8k9l", "fix: memory leak in connection pool", "charlie", 15000, "webhook", now),
        sample("pipe-004", 1237, "success", 21600, 21120, "main", "m0n1o2p", "chore: bump deps", "dave", 21720, "scheduled", now),
        sample("pipe-005", 1238, "pending", 120, 120, "feat/metrics", "q3r4s5t", "feat: add prometheus metrics", "alice", 300, "api", now),
        sample("pipe-006", 1239, "success", 28800, 28440, "main", "u6v7w8x", "docs: update API documentation", "bob", 28980, "webhook", now),
        sample("pipe-007", 1240, "failed", 36000, 35280, "fix/database-conn", "y9z0a1b", "fix: database connection timeout", "charlie", 36480, "webhook", now),
        sample("pipe-008", 1241, "success", 43200, 42960, "main", "c2d3e4f", "perf: optimize query performance", "dave", 43440, "webhook", now),
    ];
    assert forall|i: int| 0 <= i < MOCK_PIPELINE_COUNT implies #[trigger] is_mock_pipeline(r@[i], i, now) by {
        if i == 0 {
        } else if i == 1 {
        } else if i == 2 {
        } else if i == 3 {
        } else if i == 4 {
        } else if i == 5 {
        } else if i == 6 {
        } else {
        }
    }
    r
}

/// The sample pipelines as of now; a clock reading earlier than the data
/// can be built for counts as the earliest one that can.
pub fn mock_pipelines() -> (r: Vec<Pipeline>)
    ensures
        r@.len() == MOCK_PIPELINE_COUNT,
        exists|now: i64| now >= MOCK_EARLIEST_NOW && #[trigger] are_mock_pipelines(r@, now),
{
    let t = unix_now();
    let now = if t < MOCK_EARLIEST_NOW { MOCK_EARLIEST_NOW } else { t };
    mock_pipelines_at(now)
}

} // verus!
