use polly::abuse::AbuseTracker;
use polly::storage::ban::{ban_write_for, write_fits_for, BanRecord, BanWrite, DurableAnswer};
use polly::state::{can_register_strike, check_ban, register_strike, StrikeReport};

const UNIX_NOW: i64 = 1_700_000_000;
const MIN: u64 = 60_000_000_000;

#[test]
fn strike_without_ban_mirrors_the_count() {
    for strikes in [1u32, 2, 4, 6, 19] {
        assert_eq!(
            ban_write_for(strikes, false, UNIX_NOW),
            BanWrite::Temporary { until: 0, strikes }
        );
    }
}

#[test]
fn temporary_ban_is_written_with_its_end() {
    assert_eq!(
        ban_write_for(5, true, UNIX_NOW),
        BanWrite::Temporary { until: UNIX_NOW + 600, strikes: 5 }
    );
    assert_eq!(
        ban_write_for(10, true, UNIX_NOW),
        BanWrite::Temporary { until: UNIX_NOW + 86_400, strikes: 10 }
    );
    assert_eq!(
        ban_write_for(10, true, i64::MAX - 86_400),
        BanWrite::Temporary { until: i64::MAX, strikes: 10 }
    );
    assert_eq!(ban_write_for(5, true, -600), BanWrite::Temporary { until: 0, strikes: 5 });
}

#[test]
fn permanent_ban_is_written_as_such() {
    assert_eq!(ban_write_for(20, true, UNIX_NOW), BanWrite::Permanent { strikes: 20 });
    assert_eq!(ban_write_for(u32::MAX, true, UNIX_NOW), BanWrite::Permanent { strikes: u32::MAX });
}

#[test]
fn ban_at_a_count_that_is_no_threshold_writes_nothing() {
    assert_eq!(ban_write_for(7, true, UNIX_NOW), BanWrite::Nothing);
    assert_eq!(ban_write_for(0, true, UNIX_NOW), BanWrite::Nothing);
}

#[test]
fn record_is_active_while_permanent_or_not_yet_over() {
    let record = |banned_until, permanent| BanRecord {
        banned_until,
        permanent,
        strikes: 5,
        created_at: 0,
    };
    assert!(record(None, 1).is_active(UNIX_NOW));
    assert!(record(Some(0), 1).is_active(UNIX_NOW));
    assert!(!record(None, 0).is_active(UNIX_NOW));
    assert!(!record(Some(0), 0).is_active(UNIX_NOW));
    assert!(record(Some(UNIX_NOW + 1), 0).is_active(UNIX_NOW));
    assert!(!record(Some(UNIX_NOW), 0).is_active(UNIX_NOW));
    assert!(!record(Some(UNIX_NOW - 1), 0).is_active(UNIX_NOW));
    // only the value one is the flag
    assert!(!record(None, 2).is_active(UNIX_NOW));
}

fn banned_tracker() -> AbuseTracker {
    let mut tracker = AbuseTracker::new();
    for _ in 0..5 {
        tracker.register_strike("a", 0);
    }
    tracker
}

#[test]
fn durable_ban_short_circuits() {
    let mut tracker = banned_tracker();
    let before = *tracker.entries.get("a").unwrap();
    // the ban in memory has run out; the durable one decides and nothing is cleared
    assert!(check_ban(DurableAnswer::Banned, &mut tracker, "a", 11 * MIN));
    assert_eq!(*tracker.entries.get("a").unwrap(), before);
    assert!(check_ban(DurableAnswer::Banned, &mut tracker, "unknown", 0));
    assert!(!tracker.entries.contains_key("unknown"));
}

#[test]
fn every_other_answer_leaves_it_to_the_tracker() {
    for durable in [DurableAnswer::NoStore, DurableAnswer::NotBanned, DurableAnswer::Failed] {
        let mut tracker = banned_tracker();
        assert!(check_ban(durable, &mut tracker, "a", 10 * MIN - 1));
        assert!(!check_ban(durable, &mut tracker, "a", 10 * MIN));
        assert_eq!(tracker.entries.get("a").unwrap().banned_until, None);
        assert!(!check_ban(durable, &mut tracker, "b", 0));
    }
}

#[test]
fn strike_report_carries_the_write() {
    let mut tracker = AbuseTracker::new();
    for n in 1..5u32 {
        assert_eq!(
            register_strike(&mut tracker, "a", 0, UNIX_NOW),
            StrikeReport {
                strikes: n,
                banned: false,
                write: BanWrite::Temporary { until: 0, strikes: n }
            }
        );
    }
    assert_eq!(
        register_strike(&mut tracker, "a", 0, UNIX_NOW),
        StrikeReport {
            strikes: 5,
            banned: true,
            write: BanWrite::Temporary { until: UNIX_NOW + 600, strikes: 5 }
        }
    );
    // while banned, every strike writes the ban again, from the new time of day
    assert_eq!(
        register_strike(&mut tracker, "a", MIN, UNIX_NOW + 60),
        StrikeReport {
            strikes: 5,
            banned: true,
            write: BanWrite::Temporary { until: UNIX_NOW + 660, strikes: 5 }
        }
    );
}

#[test]
fn strike_report_of_a_permanent_ban() {
    let mut tracker = AbuseTracker::new();
    tracker.set_strikes("a", 19, 0);
    assert_eq!(
        register_strike(&mut tracker, "a", 1, UNIX_NOW),
        StrikeReport { strikes: 20, banned: true, write: BanWrite::Permanent { strikes: 20 } }
    );
    assert_eq!(
        register_strike(&mut tracker, "a", 2, UNIX_NOW),
        StrikeReport { strikes: 20, banned: true, write: BanWrite::Permanent { strikes: 20 } }
    );
}

#[test]
fn banned_identity_with_an_odd_count_writes_nothing() {
    let mut tracker = banned_tracker();
    tracker.set_strikes("a", 7, 1);
    assert_eq!(
        register_strike(&mut tracker, "a", 2, UNIX_NOW),
        StrikeReport { strikes: 7, banned: true, write: BanWrite::Nothing }
    );
}

#[test]
fn write_fits_where_the_end_of_the_ban_can_be_written() {
    assert!(write_fits_for(5, true, i64::MAX - 600));
    assert!(!write_fits_for(5, true, i64::MAX - 599));
    assert!(write_fits_for(10, true, i64::MAX - 86_400));
    assert!(!write_fits_for(10, true, i64::MAX - 86_399));
    // no other write carries a time
    assert!(write_fits_for(5, false, i64::MAX));
    assert!(write_fits_for(7, true, i64::MAX));
    assert!(write_fits_for(20, true, i64::MAX));
    assert_eq!(ban_write_for(20, true, i64::MAX), BanWrite::Permanent { strikes: 20 });
    assert_eq!(ban_write_for(3, false, i64::MAX), BanWrite::Temporary { until: 0, strikes: 3 });
}

#[test]
fn strike_can_be_registered_where_count_and_write_fit() {
    let mut tracker = AbuseTracker::new();
    assert!(can_register_strike(&tracker, "a", u64::MAX, i64::MAX));
    tracker.set_strikes("a", 4, 0);
    assert!(can_register_strike(&tracker, "a", 0, i64::MAX - 600));
    assert!(!can_register_strike(&tracker, "a", 0, i64::MAX - 599));
    assert!(!can_register_strike(&tracker, "a", u64::MAX, 0));
    tracker.set_strikes("full", u32::MAX, 0);
    assert!(!can_register_strike(&tracker, "full", 0, 0));
    // a ban that is met is written again, so its end has to fit too
    let mut banned = banned_tracker();
    assert!(can_register_strike(&banned, "a", u64::MAX, i64::MAX - 600));
    assert!(!can_register_strike(&banned, "a", 1, i64::MAX));
    banned.set_strikes("a", 7, 1);
    assert!(can_register_strike(&banned, "a", 1, i64::MAX));
}
