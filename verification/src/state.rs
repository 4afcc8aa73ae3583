//! The two questions the rest of the service asks: is this identity banned,
//! and what happens now that it broke a rule.

use vstd::prelude::*;
use crate::abuse::{banned_in, entry_of, looked_at, struck_in, AbuseEntry, AbuseTracker};
use crate::storage::ban::{
    ban_write, ban_write_for, write_fits, write_fits_for, BanWrite, DurableAnswer,
};
use crate::clock::Instant;

verus! {

/// Tells whether `ip` is banned at `now`. A ban in the durable store
/// decides at once and the tracker is not touched. In every other case,
/// a store that could not be read among them, the tracker decides.
pub fn check_ban(durable: DurableAnswer, tracker: &mut AbuseTracker, ip: &str, now: Instant) -> (banned:
    bool)
    ensures
        banned == (durable is Banned || banned_in(old(tracker)@, ip@, now)),
        final(tracker)@ == if durable is Banned {
            old(tracker)@
        } else {
            looked_at(old(tracker)@, ip@, now)
        },
{
    match durable {
        DurableAnswer::Banned => true,
        _ => tracker.is_banned(ip, now),
    }
}

/// What a strike came to.
#[derive(Clone, Copy, Debug, PartialEq, Eq, Structural)]
pub struct StrikeReport {
    /// The identity's strike count after the strike.
    pub strikes: u32,
    /// The identity is banned.
    pub banned: bool,
    /// What to write to the durable store, if there is one. The write is
    /// best effort: whether it succeeds changes nothing about `banned`.
    pub write: BanWrite,
}

/// A strike of `ip` can be registered: it can be counted, and what the
/// durable store has to hear of it can be put down.
pub open spec fn strike_fits(
    entries: Map<Seq<char>, AbuseEntry>,
    ip: Seq<char>,
    now: Instant,
    unix_now: i64,
) -> bool {
    let entry = entry_of(entries, ip, now);
    entry.can_strike(now) && write_fits(
        entry.struck(now).strikes,
        entry.strike_bans(now),
        unix_now,
    )
}

/// Tells whether [`register_strike`] may be called with these values.
pub fn can_register_strike(tracker: &AbuseTracker, ip: &str, now: Instant, unix_now: i64) -> (fits:
    bool)
    ensures
        fits == strike_fits(tracker@, ip@, now, unix_now),
{
    if !tracker.strike_fits(ip, now) {
        return false;
    }
    let (strikes, banned) = tracker.preview_strike(ip, now);
    write_fits_for(strikes, banned, unix_now)
}

/// Registers a rule violation of `ip` in the tracker and says what the
/// durable store has to hear of it. `now` is the time on the monotonic
/// clock, `unix_now` the time of day in seconds since the Unix epoch.
pub fn register_strike(tracker: &mut AbuseTracker, ip: &str, now: Instant, unix_now: i64) -> (report:
    StrikeReport)
    requires
        strike_fits(old(tracker)@, ip@, now, unix_now),
    ensures
        final(tracker)@ == struck_in(old(tracker)@, ip@, now),
        report.strikes == entry_of(old(tracker)@, ip@, now).struck(now).strikes,
        report.banned == entry_of(old(tracker)@, ip@, now).strike_bans(now),
        report.write == ban_write(report.strikes, report.banned, unix_now),
{
    let (strikes, banned) = tracker.register_strike(ip, now);
    StrikeReport { strikes, banned, write: ban_write_for(strikes, banned, unix_now) }
}

} // verus!
