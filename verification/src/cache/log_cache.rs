//! The disk cache of job logs: which entries are still good, what is
//! written for an entry, and how a stored log is read back. Reading and
//! writing the files is left to the caller.

use vstd::prelude::*;
use crate::text::{concat, decimal, owned, parse_unsigned, parse_usize, push_char, str_eq, u64_to_string, usize_to_string, join_lines, joined_lines};
use crate::widgets::faceted_search::strings_view;

verus! {

broadcast use vstd::string::axiom_spec_iter;

/// Lines of a text so far and the line being read.
pub open spec fn line_state(s: Seq<char>) -> (Seq<Seq<char>>, Seq<char>)
    decreases s.len(),
{
    if s.len() == 0 {
        (seq![], seq![])
    } else {
        let (done, cur) = line_state(s.drop_last());
        if s.last() == '\n' {
            (done.push(without_cr(cur)), seq![])
        } else {
            (done, cur.push(s.last()))
        }
    }
}

/// A line without the carriage return that ended it, if any.
pub open spec fn without_cr(l: Seq<char>) -> Seq<char> {
    if l.len() > 0 && l.last() == '\r' { l.drop_last() } else { l }
}

/// The lines of a text, as `str::lines` gives them: split at "\n" or
/// "\r\n", with no empty line after a final line ending.
pub open spec fn text_lines(s: Seq<char>) -> Seq<Seq<char>> {
    let (done, cur) = line_state(s);
    if cur.len() > 0 { done.push(cur) } else { done }
}

/// The lines of a text, as `str::lines` gives them.
pub fn split_lines(content: &str) -> (r: Vec<String>)
    ensures
        strings_view(r@) == text_lines(content@),
{
    let mut done: Vec<String> = Vec::new();
    let mut cur = String::new();
    for c in it: content.chars()
        invariant
            it.seq() == content@,
            (strings_view(done@), cur@) == line_state(content@.take(it.index() as int)),
    {
        assert(content@.take(it.index() + 1).drop_last() =~= content@.take(it.index() as int));
        if c == '\n' {
            let n = cur.as_str().unicode_len();
            let line = if n > 0 && cur.as_str().get_char(n - 1) == '\r' {
                let l = cur.as_str().substring_char(0, n - 1);
                assert(l@ =~= cur@.drop_last());
                owned(l)
            } else {
                cur
            };
            let ghost before = strings_view(done@);
            done.push(line);
            assert(strings_view(done@) =~= before.push(line@));
            cur = String::new();
        } else {
            push_char(&mut cur, c);
        }
    }
    assert(content@.take(content@.len() as int) =~= content@);
    if cur.as_str().unicode_len() > 0 {
        let ghost before = strings_view(done@);
        let ghost last = cur@;
        done.push(cur);
        assert(strings_view(done@) =~= before.push(last));
    }
    done
}


/// Days a cached log stays good.
pub const CACHE_MAX_AGE_DAYS: i64 = 15;

/// Seconds in a day.
pub const SECONDS_PER_DAY: i64 = 86400;

/// What is stored beside a cached log.
pub struct CacheMetadata {
    /// When the log was stored, in seconds since the epoch.
    pub cached_at: i64,
    /// The job's status then.
    pub job_status: String,
    /// A check of the log: its number of lines.
    pub log_hash: String,
}

impl Clone for CacheMetadata {
    fn clone(&self) -> (r: Self)
        ensures
            r == *self,
    {
        CacheMetadata { cached_at: self.cached_at, job_status: self.job_status.clone(), log_hash: self.log_hash.clone() }
    }
}

/// A cached log.
pub struct CacheEntry {
    pub logs: Vec<String>,
}

/// What the cache holds for a job.
pub enum CacheStatus {
    /// A good log.
    Valid(CacheEntry),
    /// A log too old, or of a job that was running.
    Stale,
    /// No log.
    Missing,
}

/// Whole days in `secs` seconds, rounded toward zero.
pub open spec fn whole_days(secs: int) -> int {
    if secs >= 0 { secs / (SECONDS_PER_DAY as int) } else { -((-secs) / (SECONDS_PER_DAY as int)) }
}

/// Days since a log was stored, at `now`.
pub open spec fn age_days(cached_at: i64, now: i64) -> int {
    whole_days(now - cached_at)
}

/// Whether a cached log is good at `now`: its job was not running, and it
/// is at most fifteen days old.
pub open spec fn cache_valid(m: CacheMetadata, now: i64) -> bool {
    m.job_status@ != "running"@ && age_days(m.cached_at, now) <= CACHE_MAX_AGE_DAYS
}

/// Whether a cached log is to be deleted at `now`: it is more than fifteen
/// days old.
pub open spec fn cache_expired(m: CacheMetadata, now: i64) -> bool {
    age_days(m.cached_at, now) > CACHE_MAX_AGE_DAYS
}

/// Whole days from `cached_at` to `now`, rounded toward zero.
fn days_between(cached_at: i64, now: i64) -> (r: i128)
    ensures
        r == age_days(cached_at, now),
{
    let secs: i128 = now as i128 - cached_at as i128;
    if secs >= 0 {
        secs / (SECONDS_PER_DAY as i128)
    } else {
        -((-secs) / (SECONDS_PER_DAY as i128))
    }
}

/// The cache of job logs in a directory: for job N, the log in "N.log" and
/// its metadata in "N.meta".
pub struct LogCacheManager {
    pub cache_dir: String,
}

impl Clone for LogCacheManager {
    fn clone(&self) -> (r: Self)
        ensures
            r == *self,
    {
        LogCacheManager { cache_dir: self.cache_dir.clone() }
    }
}

impl LogCacheManager {
    /// A cache in the directory `cache_dir`.
    pub fn new(cache_dir: String) -> (r: Self)
        ensures
            r.cache_dir == cache_dir,
    {
        LogCacheManager { cache_dir }
    }

    /// The name of the file holding job `job_number`'s log.
    pub fn log_file_name(job_number: u32) -> (r: String)
        ensures
            r@ == decimal(job_number as nat) + ".log"@,
    {
        concat(u64_to_string(job_number as u64).as_str(), ".log")
    }

    /// The name of the file holding job `job_number`'s metadata.
    pub fn meta_file_name(job_number: u32) -> (r: String)
        ensures
            r@ == decimal(job_number as nat) + ".meta"@,
    {
        concat(u64_to_string(job_number as u64).as_str(), ".meta")
    }

    /// The job whose metadata file has the name `stem` without ".meta".
    pub fn job_number_of(stem: &str) -> (r: Option<u32>)
        ensures
            r matches Some(n) ==> parse_unsigned(stem@, u32::MAX as nat) == Some(n as nat),
            r is None ==> parse_unsigned(stem@, u32::MAX as nat) is None,
    {
        match parse_usize(stem) {
            Some(n) => if n <= u32::MAX as usize {
                Some(n as u32)
            } else {
                None
            },
            None => None,
        }
    }

    /// Whether a cached log is good at `now` (seconds since the epoch).
    pub fn is_cache_valid_at(&self, metadata: &CacheMetadata, now: i64) -> (r: bool)
        ensures
            r == cache_valid(*metadata, now),
    {
        if str_eq(metadata.job_status.as_str(), "running") {
            return false;
        }
        days_between(metadata.cached_at, now) <= CACHE_MAX_AGE_DAYS as i128
    }

    /// Whether a cached log is to be deleted at `now`.
    pub fn is_expired_at(&self, metadata: &CacheMetadata, now: i64) -> (r: bool)
        ensures
            r == cache_expired(*metadata, now),
    {
        days_between(metadata.cached_at, now) > CACHE_MAX_AGE_DAYS as i128
    }

    /// The metadata stored with `logs` at `now`.
    pub fn metadata_at(logs: &Vec<String>, job_status: String, now: i64) -> (r: CacheMetadata)
        ensures
            r.cached_at == now,
            r.job_status == job_status,
            r.log_hash@ == decimal(logs@.len()),
    {
        CacheMetadata { cached_at: now, job_status, log_hash: usize_to_string(logs.len()) }
    }

    /// The text stored for `logs`: the lines joined with newlines.
    pub fn log_content(logs: &Vec<String>) -> (r: String)
        ensures
            r@ == joined_lines(strings_view(logs@)),
    {
        join_lines(logs.as_slice())
    }

    /// What the cache holds for a job whose files were found: a stale entry
    /// when the metadata says so at `now`, else the stored log's lines.
    pub fn status_of(&self, metadata: &CacheMetadata, log_content: &str, now: i64) -> (r: CacheStatus)
        ensures
            !cache_valid(*metadata, now) ==> r is Stale,
            cache_valid(*metadata, now) ==> (r matches CacheStatus::Valid(e) && strings_view(e.logs@) == text_lines(log_content@)),
    {
        if !self.is_cache_valid_at(metadata, now) {
            return CacheStatus::Stale;
        }
        CacheStatus::Valid(CacheEntry { logs: split_lines(log_content) })
    }
}

/// A log stored at `now` is good at once while its job was not running,
/// and is not due for deletion.
pub proof fn law_fresh_entry_valid(status: String, hash: String, now: i64)
    requires
        status@ != "running"@,
    ensures
        cache_valid(CacheMetadata { cached_at: now, job_status: status, log_hash: hash }, now),
        !cache_expired(CacheMetadata { cached_at: now, job_status: status, log_hash: hash }, now),
{
}

/// Cleaning up never deletes an entry that would still be read as valid:
/// a valid entry is not expired.
pub proof fn law_valid_entry_not_expired(m: CacheMetadata, now: i64)
    requires
        cache_valid(m, now),
    ensures
        !cache_expired(m, now),
{
}

/// Reading text without line breaks adds it to the line being read.
proof fn lemma_line_state_append(p: Seq<char>, t: Seq<char>)
    requires
        !t.contains('\n'),
    ensures
        line_state(p + t) == (line_state(p).0, line_state(p).1 + t),
    decreases t.len(),
{
    if t.len() == 0 {
        assert(p + t =~= p);
        assert(line_state(p).1 + t =~= line_state(p).1);
    } else {
        let u = t.drop_last();
        assert(!u.contains('\n')) by {
            if u.contains('\n') {
                let k = choose|k: int| 0 <= k < u.len() && u[k] == '\n';
                assert(t[k] == '\n');
            }
        }
        lemma_line_state_append(p, u);
        assert((p + t).drop_last() =~= p + u);
        assert((p + t).last() == t.last());
        assert(t.last() != '\n') by {
            assert(t[t.len() - 1] == t.last());
        }
        assert(line_state(p).1 + u.push(t.last()) =~= line_state(p).1 + t);
    }
}

/// The lines of a log, joined with newlines, read back as the same lines
/// when no line holds a newline or ends with a carriage return.
proof fn lemma_joined_state(ls: Seq<Seq<char>>)
    requires
        ls.len() > 0,
        forall|i: int| 0 <= i < ls.len() ==> !(#[trigger] ls[i]).contains('\n'),
        forall|i: int| 0 <= i < ls.len() ==> without_cr(#[trigger] ls[i]) == ls[i],
    ensures
        line_state(joined_lines(ls)) == (ls.drop_last(), ls.last()),
    decreases ls.len(),
{
    if ls.len() == 1 {
        lemma_line_state_append(seq![], ls[0]);
        assert(seq![] + ls[0] =~= ls[0]);
        assert(line_state(Seq::<char>::empty()) == (Seq::<Seq<char>>::empty(), Seq::<char>::empty()));
        assert(ls.drop_last() =~= Seq::<Seq<char>>::empty());
        assert(Seq::<char>::empty() + ls[0] =~= ls[0]);
    } else {
        let front = ls.drop_last();
        assert forall|i: int| 0 <= i < front.len() implies !(#[trigger] front[i]).contains('\n') by {
            assert(front[i] == ls[i]);
        }
        assert forall|i: int| 0 <= i < front.len() implies without_cr(#[trigger] front[i]) == front[i] by {
            assert(front[i] == ls[i]);
        }
        lemma_joined_state(front);
        let j = joined_lines(front);
        let jn = j + seq!['\n'];
        assert(jn.drop_last() =~= j);
        assert(line_state(jn) == (front.drop_last().push(without_cr(front.last())), Seq::<char>::empty()));
        assert(front.drop_last().push(without_cr(front.last())) =~= front) by {
            assert(without_cr(front.last()) == front.last()) by {
                assert(front.last() == ls[ls.len() - 2]);
            }
        }
        assert(!ls.last().contains('\n')) by {
            assert(ls.last() == ls[ls.len() - 1]);
        }
        lemma_line_state_append(jn, ls.last());
        assert(joined_lines(ls) == jn + ls.last());
        assert(Seq::<char>::empty() + ls.last() =~= ls.last());
    }
}

/// What is stored for a log reads back as the same lines, when no line
/// holds a newline or ends with a carriage return and the last line is not
/// empty (a final empty line is not read back).
pub proof fn law_stored_log_reads_back(ls: Seq<Seq<char>>)
    requires
        forall|i: int| 0 <= i < ls.len() ==> !(#[trigger] ls[i]).contains('\n'),
        forall|i: int| 0 <= i < ls.len() ==> without_cr(#[trigger] ls[i]) == ls[i],
        ls.len() > 0 ==> ls.last().len() > 0,
    ensures
        text_lines(joined_lines(ls)) == ls,
{
    if ls.len() == 0 {
        assert(joined_lines(ls) =~= Seq::<char>::empty());
        assert(text_lines(Seq::<char>::empty()) =~= ls);
    } else {
        lemma_joined_state(ls);
        assert(ls.drop_last().push(ls.last()) =~= ls);
    }
}

/// A stored log read back fewer than sixteen days after it was stored:
/// it is valid exactly when its job was not running, and its text gives
/// back the same lines, when no line holds a newline or ends with a
/// carriage return and the last line is not empty.
pub proof fn law_put_then_get(ls: Seq<Seq<char>>, m: CacheMetadata, later: i64)
    requires
        forall|i: int| 0 <= i < ls.len() ==> !(#[trigger] ls[i]).contains('\n'),
        forall|i: int| 0 <= i < ls.len() ==> without_cr(#[trigger] ls[i]) == ls[i],
        ls.len() > 0 ==> ls.last().len() > 0,
        later - m.cached_at < (CACHE_MAX_AGE_DAYS + 1) * SECONDS_PER_DAY,
    ensures
        cache_valid(m, later) <==> m.job_status@ != "running"@,
        text_lines(joined_lines(ls)) == ls,
{
    law_stored_log_reads_back(ls);
    let secs = later - m.cached_at;
    if secs >= 0 {
        assert(secs / (SECONDS_PER_DAY as int) <= CACHE_MAX_AGE_DAYS) by (nonlinear_arith)
            requires
                0 <= secs < (CACHE_MAX_AGE_DAYS + 1) * SECONDS_PER_DAY,
                SECONDS_PER_DAY == 86400,
        ;
    }
}

} // verus!
