//! The CircleCI API client: where requests go, and what their answers mean.
//! Sending a request and decoding the JSON of its answer are left to the
//! caller, which hands in the status, the body and what the body decoded to.

use vstd::prelude::*;
use crate::api::error::ApiError;
use crate::api::models::{Pipeline, TriggerInfo, VcsInfo};
use crate::text::{concat, owned};

verus! {

/// Where the CircleCI API answers.
pub const DEFAULT_BASE_URL: &'static str = "https://circleci.com/api/v2";

/// A client of the CircleCI API for one project.
pub struct CircleCIClient {
    /// The API token sent with each request.
    pub token: String,
    /// The project, as "gh/owner/repo".
    pub project_slug: String,
    /// Where the API answers.
    pub base_url: String,
}

/// A pipeline as the API sends it: the parts it may leave out are optional,
/// and times are in seconds since the epoch.
pub struct RawPipeline {
    pub id: String,
    pub number: u32,
    pub state: String,
    pub created_at: i64,
    pub updated_at: i64,
    pub project_slug: String,
    pub branch: Option<String>,
    pub revision: Option<String>,
    pub commit_subject: Option<String>,
    pub trigger_type: Option<String>,
    pub actor_login: Option<String>,
}

/// One page of pipelines as the API sends it.
pub struct RawPipelinePage {
    pub items: Vec<RawPipeline>,
    pub next_page_token: Option<String>,
}

/// One page of pipelines, or why it could not be had.
pub type PipelinePageResult = Result<(Vec<Pipeline>, Option<String>), ApiError>;

/// The text of `o`, or `default` when there is none.
pub open spec fn or_default(o: Option<String>, default: Seq<char>) -> Seq<char> {
    match o {
        Some(s) => s@,
        None => default,
    }
}

/// A revision shortened to its first seven characters.
pub open spec fn short_revision(s: Seq<char>) -> Seq<char> {
    if s.len() > 7 { s.take(7) } else { s }
}

/// `p` is the pipeline the API's `r` describes: a missing branch, revision,
/// trigger type or actor is "unknown", a missing commit subject is "No
/// commit message", the revision is cut to seven characters, and the commit
/// time is the pipeline's creation time.
pub open spec fn is_pipeline_of(p: Pipeline, r: RawPipeline) -> bool {
    &&& p.id == r.id
    &&& p.number == r.number
    &&& p.state == r.state
    &&& p.created_at == r.created_at
    &&& p.updated_at == r.updated_at
    &&& p.project_slug == r.project_slug
    &&& p.vcs.branch@ == or_default(r.branch, "unknown"@)
    &&& p.vcs.revision@ == short_revision(or_default(r.revision, "unknown"@))
    &&& p.vcs.commit_subject@ == or_default(r.commit_subject, "No commit message"@)
    &&& p.vcs.commit_author_name@ == or_default(r.actor_login, "unknown"@)
    &&& p.vcs.commit_timestamp == r.created_at
    &&& p.trigger.trigger_type@ == or_default(r.trigger_type, "unknown"@)
}

/// Whether an HTTP status reports success (2xx).
pub open spec fn is_success(status: u16) -> bool {
    200 <= status && status < 300
}

/// The pipelines of a run of pages: the first failed page's error, or all
/// their pipelines in order.
pub open spec fn collected(pages: Seq<PipelinePageResult>) -> Result<Seq<Pipeline>, ApiError>
    decreases pages.len(),
{
    if pages.len() == 0 {
        Ok(seq![])
    } else {
        match collected(pages.drop_last()) {
            Err(e) => Err(e),
            Ok(ps) => match pages.last() {
                Err(e) => Err(e),
                Ok((v, _)) => Ok(ps + v@),
            },
        }
    }
}

/// Once pages have failed, more pages change nothing.
proof fn lemma_collected_error_stays(pages: Seq<PipelinePageResult>, j: int, k: int)
    requires
        0 <= j <= k <= pages.len(),
        collected(pages.take(j)) is Err,
    ensures
        collected(pages.take(k)) == collected(pages.take(j)),
    decreases k - j,
{
    if j < k {
        lemma_collected_error_stays(pages, j, k - 1);
        assert(pages.take(k).drop_last() =~= pages.take(k - 1));
    }
}

/// The text of `o`, or `default` when there is none.
fn text_or(o: Option<String>, default: &str) -> (r: String)
    ensures
        r@ == or_default(o, default@),
{
    match o {
        Some(s) => s,
        None => owned(default),
    }
}

/// A copy of an API error.
fn copy_error(e: &ApiError) -> (r: ApiError)
    ensures
        r == *e,
{
    match e {
        ApiError::Network(m) => ApiError::Network(m.clone()),
        ApiError::Http(s, m) => ApiError::Http(*s, m.clone()),
        ApiError::Parse(m) => ApiError::Parse(m.clone()),
        ApiError::Timeout => ApiError::Timeout,
    }
}

/// The pipeline the API's `raw` describes.
pub fn pipeline_from_raw(raw: RawPipeline) -> (p: Pipeline)
    ensures
        is_pipeline_of(p, raw),
{
    let ghost r = raw;
    let revision = text_or(raw.revision, "unknown");
    let n = revision.as_str().unicode_len();
    let revision = if n > 7 {
        let cut = revision.as_str().substring_char(0, 7);
        assert(cut@ =~= revision@.take(7));
        owned(cut)
    } else {
        revision
    };
    Pipeline {
        id: raw.id,
        number: raw.number,
        state: raw.state,
        created_at: raw.created_at,
        updated_at: raw.updated_at,
        vcs: VcsInfo {
            branch: text_or(raw.branch, "unknown"),
            revision,
            commit_subject: text_or(raw.commit_subject, "No commit message"),
            commit_author_name: text_or(raw.actor_login, "unknown"),
            commit_timestamp: raw.created_at,
        },
        trigger: TriggerInfo { trigger_type: text_or(raw.trigger_type, "unknown") },
        project_slug: raw.project_slug,
    }
}

/// What an answer to a request for a page of pipelines means, from its
/// HTTP status, its body and what the body decoded to: a status other than
/// 2xx is an HTTP error with the body as its message; a body that did not
/// decode is a parse error; otherwise the page's pipelines and the token of
/// the next page.
pub fn read_pipeline_page(status: u16, body: String, decoded: Result<RawPipelinePage, String>) -> (r:
    PipelinePageResult)
    ensures
        !is_success(status) ==> r == Err::<(Vec<Pipeline>, Option<String>), ApiError>(ApiError::Http(status, body)),
        is_success(status) ==> match decoded {
            Err(e) => r matches Err(ApiError::Parse(m)) && m@ == "Failed to parse pipelines: "@ + e@,
            Ok(page) => r matches Ok((ps, token)) && token == page.next_page_token && ps@.len()
                == page.items@.len() && forall|i: int|
                0 <= i < ps@.len() ==> #[trigger] is_pipeline_of(ps@[i], page.items@[i]),
        },
{
    if status < 200 || status >= 300 {
        return Err(ApiError::Http(status, body));
    }
    match decoded {
        Err(e) => Err(ApiError::Parse(concat("Failed to parse pipelines: ", e.as_str()))),
        Ok(page) => {
            let mut items = page.items;
            let token = page.next_page_token;
            let ghost all = items@;
            let mut ps: Vec<Pipeline> = Vec::new();
            let mut i: usize = 0;
            let n = items.len();
            while i < n
                invariant
                    n == all.len(),
                    i <= n,
                    items@ == all.skip(i as int),
                    ps@.len() == i,
                    forall|k: int| 0 <= k < i ==> #[trigger] is_pipeline_of(ps@[k], all[k]),
                decreases n - i,
            {
                let raw = items.remove(0);
                assert(raw == all[i as int]);
                ps.push(pipeline_from_raw(raw));
                i = i + 1;
                assert(items@ =~= all.skip(i as int));
            }
            Ok((ps, token))
        },
    }
}

/// Whether to ask for another page: there is one, and fewer than `limit`
/// pipelines are in hand.
pub fn wants_next_page(collected_count: usize, limit: usize, next_page_token: &Option<String>) -> (r: bool)
    ensures
        r == (next_page_token is Some && collected_count < limit),
{
    next_page_token.is_some() && collected_count < limit
}

impl CircleCIClient {
    /// A client of the public API with no project or token yet.
    pub fn new() -> (r: Self)
        ensures
            r.token@ == Seq::<char>::empty(),
            r.project_slug@ == Seq::<char>::empty(),
            r.base_url@ == DEFAULT_BASE_URL@,
    {
        CircleCIClient { token: String::new(), project_slug: String::new(), base_url: owned(DEFAULT_BASE_URL) }
    }

    /// A client for `project_slug` with `token`, talking to the API at
    /// `base_url`.
    pub fn new_with_base_url(token: String, project_slug: String, base_url: String) -> (r: Result<Self, ApiError>)
        ensures
            r matches Ok(c) && c.token == token && c.project_slug == project_slug && c.base_url == base_url,
    {
        Ok(CircleCIClient { token, project_slug, base_url })
    }

    /// Where the project's pipelines are asked for.
    pub fn pipelines_url(&self) -> (r: String)
        ensures
            r@ == self.base_url@ + "/project/"@ + self.project_slug@ + "/pipeline"@,
    {
        let a = concat(self.base_url.as_str(), "/project/");
        let b = concat(a.as_str(), self.project_slug.as_str());
        concat(b.as_str(), "/pipeline")
    }

    /// The project's pipelines from the pages fetched, at most `limit` of
    /// them: the first failed page's error, or the pipelines of all pages
    /// in order, cut to `limit`.
    pub fn get_pipelines(&self, limit: usize, pages: Vec<PipelinePageResult>) -> (r: Result<Vec<Pipeline>, ApiError>)
        ensures
            collected(pages@) matches Err(e) ==> r == Err::<Vec<Pipeline>, ApiError>(e),
            collected(pages@) matches Ok(ps) ==> r matches Ok(v) && v@ == if ps.len() <= limit {
                ps
            } else {
                ps.take(limit as int)
            },
    {
        let mut all: Vec<Pipeline> = Vec::new();
        let mut i: usize = 0;
        assert(pages@.take(0) =~= Seq::<PipelinePageResult>::empty());
        while i < pages.len()
            invariant
                i <= pages@.len(),
                collected(pages@.take(i as int)) == Ok::<Seq<Pipeline>, ApiError>(all@),
            decreases pages@.len() - i,
        {
            assert(pages@.take(i + 1).drop_last() =~= pages@.take(i as int));
            match &pages[i] {
                Err(e) => {
                    proof {
                        lemma_collected_error_stays(pages@, i + 1, pages@.len() as int);
                        assert(pages@.take(pages@.len() as int) =~= pages@);
                    }
                    return Err(copy_error(e));
                },
                Ok((v, _)) => {
                    let ghost before = all@;
                    let mut k: usize = 0;
                    while k < v.len()
                        invariant
                            k <= v@.len(),
                            all@ == before + v@.take(k as int),
                        decreases v@.len() - k,
                    {
                        all.push(v[k].clone());
                        k = k + 1;
                        assert(all@ =~= before + v@.take(k as int));
                    }
                    assert(v@.take(k as int) =~= v@);
                },
            }
            i = i + 1;
        }
        assert(pages@.take(i as int) =~= pages@);
        all.truncate(limit);
        Ok(all)
    }
}

impl Default for CircleCIClient {
    fn default() -> (r: Self)
        ensures
            r.base_url@ == DEFAULT_BASE_URL@,
    {
        CircleCIClient::new()
    }
}

} // verus!
