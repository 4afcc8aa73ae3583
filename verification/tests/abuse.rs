use polly::abuse::{
    escalation_for, AbuseEntry, AbuseTracker, BAN_LEVELS, LONGEST_BAN, PERMANENT_BAN_AFTER,
};

const SEC: u64 = 1_000_000_000;
const MIN: u64 = 60 * SEC;
const HOUR: u64 = 60 * MIN;

fn entry(tracker: &AbuseTracker, ip: &str) -> AbuseEntry {
    *tracker.entries.get(ip).expect("identity is known")
}

/// Strikes `ip` until its count is `count`, waiting out every ban.
fn strike_up_to(tracker: &mut AbuseTracker, ip: &str, count: u32, start: u64) -> u64 {
    let mut now = start;
    loop {
        let (strikes, _) = tracker.register_strike(ip, now);
        if strikes >= count {
            return now;
        }
        now += 2 * LONGEST_BAN;
    }
}

#[test]
fn table_is_the_documented_one() {
    assert_eq!(BAN_LEVELS, [(5, 10 * MIN), (10, 24 * HOUR)]);
    assert_eq!(PERMANENT_BAN_AFTER, 20);
    assert_eq!(LONGEST_BAN, 24 * HOUR);
}

#[test]
fn escalation_only_at_thresholds() {
    for strikes in 0..40u32 {
        let expected = match strikes {
            5 => Some(10 * MIN),
            10 => Some(24 * HOUR),
            _ => None,
        };
        assert_eq!(escalation_for(strikes), expected);
    }
    assert_eq!(escalation_for(u32::MAX), None);
}

#[test]
fn new_tracker_knows_nobody() {
    let mut tracker = AbuseTracker::new();
    assert!(tracker.entries.is_empty());
    assert!(!tracker.is_banned("10.0.0.1", 0));
    assert!(!tracker.entries.contains_key("10.0.0.1"));
}

#[test]
fn first_strikes_do_not_ban() {
    let mut tracker = AbuseTracker::new();
    for n in 1..BAN_LEVELS[0].0 {
        let now = n as u64 * SEC;
        assert_eq!(tracker.register_strike("10.0.0.1", now), (n, false));
        assert!(!tracker.is_banned("10.0.0.1", now));
        assert_eq!(
            entry(&tracker, "10.0.0.1"),
            AbuseEntry { strikes: n, last_violation: now, banned_until: None, permanent: false }
        );
    }
}

#[test]
fn fifth_strike_bans_for_ten_minutes() {
    let mut tracker = AbuseTracker::new();
    for n in 1..5u32 {
        assert_eq!(tracker.register_strike("a", n as u64), (n, false));
    }
    let now = 100 * SEC;
    assert_eq!(tracker.register_strike("a", now), (5, true));
    assert_eq!(
        entry(&tracker, "a"),
        AbuseEntry {
            strikes: 5,
            last_violation: now,
            banned_until: Some(now + 10 * MIN),
            permanent: false
        }
    );
    assert!(tracker.is_banned("a", now));
    assert!(tracker.is_banned("a", now + 10 * MIN - 1));
    assert!(!tracker.is_banned("a", now + 10 * MIN));
}

#[test]
fn strikes_during_a_ban_are_not_recorded() {
    let mut tracker = AbuseTracker::new();
    let banned_at = strike_up_to(&mut tracker, "a", 5, 0);
    let before = entry(&tracker, "a");
    for k in 1..5u64 {
        assert_eq!(tracker.register_strike("a", banned_at + k * MIN), (5, true));
        assert_eq!(entry(&tracker, "a"), before);
    }
    // the ban lapses: the next strike is the sixth
    let later = banned_at + 10 * MIN;
    assert_eq!(tracker.register_strike("a", later), (6, false));
    assert_eq!(
        entry(&tracker, "a"),
        AbuseEntry { strikes: 6, last_violation: later, banned_until: None, permanent: false }
    );
}

#[test]
fn tenth_strike_bans_for_a_day() {
    let mut tracker = AbuseTracker::new();
    let now = strike_up_to(&mut tracker, "a", 10, 0);
    let found = entry(&tracker, "a");
    assert_eq!(found.strikes, 10);
    assert_eq!(found.banned_until, Some(now + 24 * HOUR));
    assert!(!found.permanent);
    assert!(tracker.is_banned("a", now + 24 * HOUR - 1));
    assert!(!tracker.is_banned("a", now + 24 * HOUR));
}

#[test]
fn lapsed_ban_is_cleared_by_the_look() {
    let mut tracker = AbuseTracker::new();
    let now = strike_up_to(&mut tracker, "a", 5, 0);
    assert!(entry(&tracker, "a").banned_until.is_some());
    assert!(tracker.is_banned("a", now + 1));
    assert!(entry(&tracker, "a").banned_until.is_some());
    assert!(!tracker.is_banned("a", now + 10 * MIN));
    assert_eq!(entry(&tracker, "a").banned_until, None);
    assert_eq!(entry(&tracker, "a").strikes, 5);
}

#[test]
fn twentieth_strike_bans_for_good() {
    let mut tracker = AbuseTracker::new();
    let mut now = 0u64;
    let mut last = (0, false);
    while last.0 < 20 {
        last = tracker.register_strike("a", now);
        let expected = last.0 == 5 || last.0 == 10 || last.0 == 20;
        assert_eq!(last.1, expected);
        now += 2 * LONGEST_BAN;
    }
    assert_eq!(last, (20, true));
    let found = entry(&tracker, "a");
    assert!(found.permanent);
    assert_eq!(found.strikes, 20);
    assert_eq!(found.banned_until, None);
}

#[test]
fn permanent_ban_is_never_cleared() {
    let mut tracker = AbuseTracker::new();
    let now = strike_up_to(&mut tracker, "a", 20, 0);
    let before = entry(&tracker, "a");
    for later in [now, now + 1, now + 365 * 24 * HOUR, u64::MAX] {
        assert!(tracker.is_banned("a", later));
        assert_eq!(entry(&tracker, "a"), before);
        assert_eq!(tracker.register_strike("a", later), (20, true));
        assert_eq!(entry(&tracker, "a"), before);
    }
}

#[test]
fn permanent_entry_with_an_old_temporary_ban_stays_banned() {
    let mut found = AbuseEntry {
        strikes: 21,
        last_violation: 5,
        banned_until: Some(10),
        permanent: true,
    };
    let before = found;
    assert!(AbuseTracker::cleanup_ban(&mut found, 1_000));
    assert_eq!(found, before);
}

#[test]
fn cleanup_ban_on_a_single_entry() {
    let mut found =
        AbuseEntry { strikes: 5, last_violation: 0, banned_until: Some(100), permanent: false };
    assert!(AbuseTracker::cleanup_ban(&mut found, 99));
    assert_eq!(found.banned_until, Some(100));
    assert!(!AbuseTracker::cleanup_ban(&mut found, 100));
    assert_eq!(found.banned_until, None);
    assert_eq!(found.strikes, 5);
    assert!(!AbuseTracker::cleanup_ban(&mut found, 0));
}

#[test]
fn identities_do_not_share_strikes() {
    let mut tracker = AbuseTracker::new();
    strike_up_to(&mut tracker, "a", 5, 0);
    assert_eq!(tracker.register_strike("b", 1), (1, false));
    assert!(tracker.is_banned("a", 1));
    assert!(!tracker.is_banned("b", 1));
}

#[test]
fn set_strikes_keeps_the_ban_state() {
    let mut tracker = AbuseTracker::new();
    tracker.set_strikes("new", 7, 42);
    assert_eq!(
        entry(&tracker, "new"),
        AbuseEntry { strikes: 7, last_violation: 42, banned_until: None, permanent: false }
    );
    let banned_at = strike_up_to(&mut tracker, "old", 5, 0);
    tracker.set_strikes("old", 2, banned_at + 1);
    assert_eq!(
        entry(&tracker, "old"),
        AbuseEntry {
            strikes: 2,
            last_violation: banned_at,
            banned_until: Some(banned_at + 10 * MIN),
            permanent: false
        }
    );
}

#[test]
fn restore_reproduces_the_counts() {
    let snapshot = vec![
        ("10.0.0.1".to_string(), 3),
        ("10.0.0.2".to_string(), 5),
        ("2001:db8:0:1::".to_string(), 25),
        ("10.0.0.3".to_string(), 0),
    ];
    let mut tracker = AbuseTracker::new();
    tracker.restore(&snapshot, 77);
    assert_eq!(tracker.entries.len(), 4);
    for (ip, strikes) in &snapshot {
        assert_eq!(
            entry(&tracker, ip),
            AbuseEntry {
                strikes: *strikes,
                last_violation: 77,
                banned_until: None,
                permanent: false
            }
        );
        // counts come back, bans do not
        assert!(!tracker.is_banned(ip, 78));
    }
}

#[test]
fn restored_identity_is_banned_again_only_at_the_next_threshold() {
    let mut tracker = AbuseTracker::new();
    tracker.restore(&vec![("a".to_string(), 5), ("b".to_string(), 25)], 0);
    assert_eq!(tracker.register_strike("a", 1), (6, false));
    assert_eq!(tracker.register_strike("b", 1), (26, true));
    assert!(entry(&tracker, "b").permanent);
}

#[test]
fn restore_round_trip() {
    let mut first = AbuseTracker::new();
    strike_up_to(&mut first, "a", 7, 0);
    strike_up_to(&mut first, "b", 12, 0);
    first.register_strike("c", 3);
    let snapshot: Vec<(String, u32)> = ["a", "b", "c"]
        .iter()
        .map(|ip| (ip.to_string(), entry(&first, ip).strikes))
        .collect();
    let mut second = AbuseTracker::new();
    second.restore(&snapshot, 0);
    assert_eq!(second.entries.len(), 3);
    for ip in ["a", "b", "c"] {
        assert_eq!(entry(&second, ip).strikes, entry(&first, ip).strikes);
    }
    assert_eq!(entry(&second, "a").strikes, 7);
    assert_eq!(entry(&second, "b").strikes, 12);
    assert_eq!(entry(&second, "c").strikes, 1);
}

#[test]
fn restore_takes_the_last_pair_of_an_identity() {
    let mut tracker = AbuseTracker::new();
    tracker.restore(&vec![("a".to_string(), 3), ("b".to_string(), 1), ("a".to_string(), 9)], 0);
    assert_eq!(entry(&tracker, "a").strikes, 9);
    assert_eq!(entry(&tracker, "b").strikes, 1);
}

#[test]
fn restore_of_nothing_changes_nothing() {
    let mut tracker = AbuseTracker::new();
    tracker.register_strike("a", 1);
    let before = entry(&tracker, "a");
    tracker.restore(&Vec::new(), 5);
    assert_eq!(tracker.entries.len(), 1);
    assert_eq!(entry(&tracker, "a"), before);
}

#[test]
fn strike_fits_tells_when_a_strike_can_be_counted() {
    let mut tracker = AbuseTracker::new();
    // a count that is no threshold needs no room on the clock
    assert!(tracker.strike_fits("a", 0));
    assert!(tracker.strike_fits("a", u64::MAX));
    assert_eq!(tracker.register_strike("a", u64::MAX), (1, false));
    // the fifth strike ends ten minutes later, the tenth a day later
    tracker.set_strikes("four", 4, 0);
    assert!(tracker.strike_fits("four", u64::MAX - 10 * MIN));
    assert!(!tracker.strike_fits("four", u64::MAX - 10 * MIN + 1));
    assert_eq!(tracker.preview_strike("four", u64::MAX - 10 * MIN), (5, true));
    assert_eq!(tracker.register_strike("four", u64::MAX - 10 * MIN), (5, true));
    assert_eq!(entry(&tracker, "four").banned_until, Some(u64::MAX));
    tracker.set_strikes("nine", 9, 0);
    assert!(tracker.strike_fits("nine", u64::MAX - LONGEST_BAN));
    assert!(!tracker.strike_fits("nine", u64::MAX - LONGEST_BAN + 1));
    // the twentieth is for good and needs none
    tracker.set_strikes("nineteen", 19, 0);
    assert!(tracker.strike_fits("nineteen", u64::MAX));
    tracker.set_strikes("full", u32::MAX, 0);
    assert!(!tracker.strike_fits("full", 1));
    tracker.set_strikes("almost", u32::MAX - 1, 0);
    assert!(tracker.strike_fits("almost", 1));
    assert_eq!(tracker.register_strike("almost", 1), (u32::MAX, true));
    // a banned identity is never counted, so any time fits
    assert!(tracker.strike_fits("almost", u64::MAX));
    assert_eq!(tracker.register_strike("almost", u64::MAX), (u32::MAX, true));
}

#[test]
fn preview_registers_nothing() {
    let mut tracker = AbuseTracker::new();
    assert_eq!(tracker.preview_strike("a", 5), (1, false));
    assert!(tracker.entries.is_empty());
    tracker.set_strikes("a", 4, 0);
    let before = entry(&tracker, "a");
    assert_eq!(tracker.preview_strike("a", 5), (5, true));
    assert_eq!(entry(&tracker, "a"), before);
    assert_eq!(tracker.register_strike("a", 5), (5, true));
    assert_eq!(tracker.preview_strike("a", 6), (5, true));
}

#[test]
fn strike_on_a_single_entry() {
    let clean = AbuseEntry { strikes: 4, last_violation: 1, banned_until: Some(3), permanent: false };
    assert!(!clean.is_banned(3));
    assert!(clean.is_banned(2));
    assert!(clean.strike_fits(3));
    let (after, banned) = clean.strike(3);
    assert!(banned);
    assert_eq!(
        after,
        AbuseEntry { strikes: 5, last_violation: 3, banned_until: Some(3 + 10 * MIN), permanent: false }
    );
    assert_eq!(after.strike(4), (after, true));
    assert_eq!(clean.strike(2), (clean, true));
}
