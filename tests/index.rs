use buckle::index::{
    after_fetch, plan_index, releases_endpoint, snapshot_file_name, snapshot_is_fresh, IndexError, IndexSource,
    IndexStep, FRESHNESS_WINDOW_SECS,
};

#[test]
fn staleness_boundary() {
    let mtime: i64 = 1_700_000_000;
    assert_eq!(FRESHNESS_WINDOW_SECS, 4 * 60 * 60);
    assert!(snapshot_is_fresh(mtime + FRESHNESS_WINDOW_SECS - 1, mtime));
    assert!(!snapshot_is_fresh(mtime + FRESHNESS_WINDOW_SECS, mtime));
    assert_eq!(plan_index(Some(mtime), mtime + FRESHNESS_WINDOW_SECS - 1), IndexStep::ReadSnapshot);
    assert_eq!(plan_index(Some(mtime), mtime + FRESHNESS_WINDOW_SECS), IndexStep::Fetch);
}

#[test]
fn snapshot_from_the_future_counts_by_distance() {
    let now: i64 = 1_700_000_000;
    assert!(snapshot_is_fresh(now, now + 10));
    assert!(!snapshot_is_fresh(now, now + FRESHNESS_WINDOW_SECS));
    assert!(snapshot_is_fresh(now, now));
}

#[test]
fn extreme_times_do_not_overflow() {
    assert!(!snapshot_is_fresh(i64::MAX, i64::MIN));
    assert!(!snapshot_is_fresh(i64::MIN, i64::MAX));
    assert!(snapshot_is_fresh(i64::MAX, i64::MAX));
}

#[test]
fn without_snapshot_a_fetch_is_made() {
    assert_eq!(plan_index(None, 0), IndexStep::Fetch);
}

#[test]
fn fallback_on_fetch_failure() {
    assert_eq!(after_fetch(true, false), Ok(IndexSource::Fetched));
    assert_eq!(after_fetch(true, true), Ok(IndexSource::Fetched));
    assert_eq!(after_fetch(false, true), Ok(IndexSource::StaleSnapshot));
    assert_eq!(after_fetch(false, false), Err(IndexError::IndexUnavailable));
}

#[test]
fn endpoint_and_snapshot_name() {
    assert_eq!(releases_endpoint("facebook", "buck2"), "https://api.github.com/repos/facebook/buck2/releases");
    assert_eq!(snapshot_file_name(), "releases.json");
}
