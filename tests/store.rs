use prometheus_sd_nexthop::route::QueryFailure;
use prometheus_sd_nexthop::store::{ProbeTargets, PURGE_AGE_NANOS};

fn sorted(mut v: Vec<String>) -> Vec<String> {
    v.sort();
    v
}

const HOUR: i128 = 60 * 60 * 1_000_000_000;

#[test]
fn repeated_upserts_keep_one_entry_with_latest_time() {
    let mut t = ProbeTargets::new();
    t.add_target_at("198.51.100.1".to_string(), 0);
    t.add_target_at("198.51.100.1".to_string(), 3 * HOUR);
    t.add_target_at("198.51.100.1".to_string(), 5 * HOUR);
    assert_eq!(t.get_targets(), vec!["198.51.100.1".to_string()]);
    // Stamped at the latest call: still fresh just before four hours after it.
    t.purge_old_targets_at(9 * HOUR - 1, PURGE_AGE_NANOS);
    assert_eq!(t.get_targets(), vec!["198.51.100.1".to_string()]);
    t.purge_old_targets_at(9 * HOUR, PURGE_AGE_NANOS);
    assert!(t.get_targets().is_empty());
}

#[test]
fn eviction_removes_exactly_the_expired() {
    let mut t = ProbeTargets::new();
    t.add_target_at("a".to_string(), 0);
    t.add_target_at("b".to_string(), 10);
    t.add_target_at("c".to_string(), 11);
    t.add_target_at("future".to_string(), 50);
    // At 20 with max age 10: "a" is 20 old, "b" exactly 10, "c" 9, "future" has no age.
    t.purge_old_targets_at(20, 10);
    assert_eq!(t.get_targets(), vec!["c".to_string()]);
    t.purge_old_targets_at(20, 10);
    assert_eq!(t.get_targets(), vec!["c".to_string()]);
}

#[test]
fn eviction_twice_at_one_moment_keeps_same_set() {
    let mut t = ProbeTargets::new();
    for (i, name) in ["x", "y", "z"].iter().enumerate() {
        t.add_target_at(name.to_string(), i as i128 * 100);
    }
    t.purge_old_targets_at(250, 100);
    let first = sorted(t.get_targets());
    t.purge_old_targets_at(250, 100);
    assert_eq!(sorted(t.get_targets()), first);
    assert_eq!(first, vec!["z".to_string()]);
}

#[test]
fn timestamps_across_the_epoch() {
    let mut t = ProbeTargets::new();
    t.add_target_at("old".to_string(), -5);
    t.purge_old_targets_at(5, 11);
    assert_eq!(t.get_targets(), vec!["old".to_string()]);
    t.purge_old_targets_at(5, 10);
    assert!(t.get_targets().is_empty());
}

#[test]
fn extreme_timestamps_do_not_overflow() {
    let mut t = ProbeTargets::new();
    t.add_target_at("min".to_string(), i128::MIN);
    t.purge_old_targets_at(i128::MAX, u128::MAX - 1);
    assert!(t.get_targets().is_empty());
    t.add_target_at("min".to_string(), i128::MIN + 1);
    t.purge_old_targets_at(i128::MAX, u128::MAX);
    assert_eq!(t.get_targets(), vec!["min".to_string()]);
}

#[test]
fn snapshot_reflects_upserts_and_evictions() {
    let mut t = ProbeTargets::default();
    assert!(t.get_targets().is_empty());
    t.add_target_at("203.0.113.1".to_string(), 0);
    t.add_target_at("2001:db8::1%3".to_string(), 2 * HOUR);
    assert_eq!(
        sorted(t.get_targets()),
        vec!["2001:db8::1%3".to_string(), "203.0.113.1".to_string()]
    );
    t.purge_old_targets_at(4 * HOUR, PURGE_AGE_NANOS);
    assert_eq!(t.get_targets(), vec!["2001:db8::1%3".to_string()]);
    t.add_target_at("203.0.113.1".to_string(), 4 * HOUR);
    assert_eq!(
        sorted(t.get_targets()),
        vec!["2001:db8::1%3".to_string(), "203.0.113.1".to_string()]
    );
}

#[test]
fn one_poll_then_purge_age_empties_the_store() {
    let mut t = ProbeTargets::new();
    t.collect_targets_at(Ok(Some("198.51.100.1".to_string())), Ok(None), 1_000);
    assert_eq!(t.get_targets(), vec!["198.51.100.1".to_string()]);
    t.purge_old_targets_at(1_000 + PURGE_AGE_NANOS as i128, PURGE_AGE_NANOS);
    assert!(t.get_targets().is_empty());
}

#[test]
fn failed_family_does_not_block_the_other() {
    let mut t = ProbeTargets::new();
    t.collect_targets_at(
        Err(QueryFailure { message: "netlink error".to_string() }),
        Ok(Some("fe80::1%4".to_string())),
        0,
    );
    assert_eq!(t.get_targets(), vec!["fe80::1%4".to_string()]);
    t.collect_targets_at(
        Ok(Some("198.51.100.1".to_string())),
        Err(QueryFailure { message: "netlink error".to_string() }),
        1,
    );
    assert_eq!(
        sorted(t.get_targets()),
        vec!["198.51.100.1".to_string(), "fe80::1%4".to_string()]
    );
}

#[test]
fn clock_based_operations_keep_fresh_entries() {
    let mut t = ProbeTargets::new();
    t.add_target("192.0.2.1".to_string());
    t.collect_targets(Ok(Some("192.0.2.2".to_string())), Ok(None));
    t.purge_old_targets();
    assert_eq!(
        sorted(t.get_targets()),
        vec!["192.0.2.1".to_string(), "192.0.2.2".to_string()]
    );
}

#[test]
fn purge_age_is_four_hours() {
    assert_eq!(PURGE_AGE_NANOS, 4 * 3600 * 1_000_000_000);
}

#[test]
fn clock_reads_after_the_epoch() {
    // 2020-09-13, in nanoseconds since the Unix epoch.
    assert!(prometheus_sd_nexthop::clock::now_nanos() > 1_600_000_000 * 1_000_000_000);
}
