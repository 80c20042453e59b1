use vstd::prelude::*;
use vstd::string::*;

verus! {

/// How long, in seconds, a release snapshot on disk is used without a fetch.
pub const FRESHNESS_WINDOW_SECS: i64 = 14400;

pub open spec fn abs_diff(a: int, b: int) -> int {
    if a >= b { a - b } else { b - a }
}

/// A snapshot modified at `mtime` is fresh at `now` while the two lie less
/// than the window apart (a clock that went back counts the same).
pub open spec fn is_fresh(now: int, mtime: int) -> bool {
    abs_diff(now, mtime) < FRESHNESS_WINDOW_SECS
}

/// Whether a snapshot modified at `mtime` (seconds since the epoch) is fresh at `now`.
pub fn snapshot_is_fresh(now: i64, mtime: i64) -> (r: bool)
    ensures
        r == is_fresh(now as int, mtime as int),
{
    let d: i128 = now as i128 - mtime as i128;
    let a: i128 = if d < 0 { -d } else { d };
    a < FRESHNESS_WINDOW_SECS as i128
}

/// What the index client does first.
#[derive(Clone, Copy, Debug, PartialEq, Eq, Structural)]
pub enum IndexStep {
    /// Parse the snapshot on disk; no network call.
    ReadSnapshot,
    /// Ask the provider for its listing.
    Fetch,
}

pub open spec fn index_step(snapshot_mtime: Option<i64>, now: i64) -> IndexStep {
    match snapshot_mtime {
        Some(m) => if is_fresh(now as int, m as int) { IndexStep::ReadSnapshot } else { IndexStep::Fetch },
        None => IndexStep::Fetch,
    }
}

/// Decides between the snapshot (when one exists and is fresh) and a fetch.
pub fn plan_index(snapshot_mtime: Option<i64>, now: i64) -> (r: IndexStep)
    ensures
        r == index_step(snapshot_mtime, now),
{
    match snapshot_mtime {
        Some(m) => if snapshot_is_fresh(now, m) { IndexStep::ReadSnapshot } else { IndexStep::Fetch },
        None => IndexStep::Fetch,
    }
}

/// Where the listing comes from after a fetch was attempted.
#[derive(Clone, Copy, Debug, PartialEq, Eq, Structural)]
pub enum IndexSource {
    /// The fetched body: persist it verbatim as the new snapshot, then parse it.
    Fetched,
    /// The fetch failed: parse the existing snapshot, and leave it as it is.
    StaleSnapshot,
}

#[derive(Clone, Copy, Debug, PartialEq, Eq, Structural)]
pub enum IndexError {
    /// Neither a fetched listing nor a snapshot is available.
    IndexUnavailable,
}

pub open spec fn index_source(fetch_succeeded: bool, snapshot_exists: bool) -> Result<IndexSource, IndexError> {
    if fetch_succeeded {
        Ok(IndexSource::Fetched)
    } else if snapshot_exists {
        Ok(IndexSource::StaleSnapshot)
    } else {
        Err(IndexError::IndexUnavailable)
    }
}

/// Decides what to use once a fetch has been attempted.
pub fn after_fetch(fetch_succeeded: bool, snapshot_exists: bool) -> (r: Result<IndexSource, IndexError>)
    ensures
        r == index_source(fetch_succeeded, snapshot_exists),
{
    if fetch_succeeded {
        Ok(IndexSource::Fetched)
    } else if snapshot_exists {
        Ok(IndexSource::StaleSnapshot)
    } else {
        Err(IndexError::IndexUnavailable)
    }
}

/// The provider's release-listing endpoint for `owner/repo`.
pub fn releases_endpoint(owner: &str, repo: &str) -> (r: String)
    ensures
        r@ == "https://api.github.com/repos/"@ + owner@ + "/"@ + repo@ + "/releases"@,
{
    let mut s = String::from_str("https://api.github.com/repos/");
    s.append(owner);
    s.append("/");
    s.append(repo);
    s.append("/releases");
    s
}

/// The snapshot's file name within the per-source cache directory.
pub fn snapshot_file_name() -> (r: &'static str)
    ensures
        r@ == "releases.json"@,
{
    "releases.json"
}

/// A snapshot is used without a network call exactly up to the window's edge:
/// modified `FRESHNESS_WINDOW_SECS - 1` seconds ago it is fresh, modified
/// `FRESHNESS_WINDOW_SECS` seconds ago (or earlier) a fetch is attempted.
pub proof fn lemma_staleness_boundary(mtime: i64, now: i64)
    ensures
        now as int - mtime as int == FRESHNESS_WINDOW_SECS - 1 ==> index_step(Some(mtime), now) == IndexStep::ReadSnapshot,
        now as int - mtime as int >= FRESHNESS_WINDOW_SECS ==> index_step(Some(mtime), now) == IndexStep::Fetch,
        index_step(None, now) == IndexStep::Fetch,
{
}

/// When the fetch fails, an existing snapshot still serves the listing and is
/// not rewritten; with no snapshot the index is unavailable.
pub proof fn lemma_fallback_on_fetch_failure(snapshot_exists: bool)
    ensures
        snapshot_exists ==> index_source(false, snapshot_exists) == Ok::<IndexSource, IndexError>(IndexSource::StaleSnapshot),
        !snapshot_exists ==> index_source(false, snapshot_exists) == Err::<IndexSource, IndexError>(IndexError::IndexUnavailable),
{
}

} // verus!
