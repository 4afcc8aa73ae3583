//! Strikes and bans.
//!
//! Every identity that overruns its rate limit collects a strike. At fixed
//! strike counts the identity is banned for a while; at
//! [`PERMANENT_BAN_AFTER`] strikes it is banned for good. An identity that is
//! banned collects no strikes. A temporary ban is not cleared by a timer: the
//! next look at the entry after its end clears it.

use vstd::prelude::*;
use vstd::hash_map::StringHashMap;
use crate::clock::{Instant, Span};

verus! {

/// The escalation table: at exactly `.0` strikes an identity is banned for
/// `.1` nanoseconds. Thresholds rise from one level to the next.
pub const BAN_LEVELS: [(u32, Span); 2] = [
    (5, 600_000_000_000),
    (10, 86_400_000_000_000),
];

/// Strike count from which an identity is banned for good.
pub const PERMANENT_BAN_AFTER: u32 = 20;

/// The longest temporary ban of [`BAN_LEVELS`].
pub const LONGEST_BAN: Span = 86_400_000_000_000;

/// What the tracker knows of one identity.
#[derive(Clone, Copy, Debug, PartialEq, Eq, Structural)]
pub struct AbuseEntry {
    pub strikes: u32,
    pub last_violation: Instant,
    pub banned_until: Option<Instant>,
    pub permanent: bool,
}

/// Level `i` of the table is the one for `strikes`.
pub open spec fn escalates_at(strikes: u32, i: int) -> bool {
    0 <= i < BAN_LEVELS@.len() && BAN_LEVELS@[i].0 == strikes
}

/// The length of the temporary ban that `strikes` strikes bring, if that count
/// is a threshold of the table.
pub open spec fn escalation(strikes: u32) -> Option<Span> {
    if exists|i: int| escalates_at(strikes, i) {
        Some(BAN_LEVELS@[choose|i: int| escalates_at(strikes, i)].1)
    } else {
        None
    }
}

/// The table is well formed: thresholds rise strictly and stay below the
/// permanent threshold, and no ban is empty or longer than [`LONGEST_BAN`].
pub proof fn lemma_ban_levels_well_formed()
    ensures
        BAN_LEVELS@.len() > 0,
        forall|i: int, j: int|
            0 <= i < j < BAN_LEVELS@.len() ==> BAN_LEVELS@[i].0 < BAN_LEVELS@[j].0,
        forall|i: int|
            0 <= i < BAN_LEVELS@.len() ==> 0 < (#[trigger] BAN_LEVELS@[i]).0 < PERMANENT_BAN_AFTER,
        forall|i: int| 0 <= i < BAN_LEVELS@.len() ==> 0 < (#[trigger] BAN_LEVELS@[i]).1 <= LONGEST_BAN,
{
}

/// A threshold of the table escalates to its own level's duration.
pub proof fn lemma_escalation_at_level(i: int)
    requires
        0 <= i < BAN_LEVELS@.len(),
    ensures
        escalation(BAN_LEVELS@[i].0) == Some(BAN_LEVELS@[i].1),
{
    lemma_ban_levels_well_formed();
    let strikes = BAN_LEVELS@[i].0;
    assert(escalates_at(strikes, i));
    let chosen = choose|k: int| escalates_at(strikes, k);
    assert(chosen == i);
}

impl AbuseEntry {
    /// The entry of an identity that is seen for the first time at `now`.
    pub open spec fn fresh(now: Instant) -> AbuseEntry {
        AbuseEntry { strikes: 0, last_violation: now, banned_until: None, permanent: false }
    }

    /// The identity is banned at `now`: for good, or until a time that has
    /// not come yet.
    pub open spec fn is_banned_at(self, now: Instant) -> bool {
        self.permanent || (self.banned_until matches Some(until) && now < until)
    }

    /// The entry after a look at `now`: a temporary ban that has run out is
    /// cleared, and nothing else changes.
    pub open spec fn settled(self, now: Instant) -> AbuseEntry {
        if self.is_banned_at(now) {
            self
        } else {
            AbuseEntry { banned_until: None, ..self }
        }
    }

    /// A strike at `now` can be counted: the identity is banned, so nothing
    /// is counted; or the new count fits its type and, where it is a
    /// threshold of the table, so does the end of the ban it brings.
    pub open spec fn can_strike(self, now: Instant) -> bool {
        self.is_banned_at(now) || (self.strikes < u32::MAX && (escalation(
            (self.strikes + 1) as u32,
        ) matches Some(duration) ==> now + duration <= u64::MAX))
    }

    /// The entry after a strike at `now`. A banned identity is left as it is.
    /// Otherwise the strike is counted, and the new count decides: a
    /// permanent ban from [`PERMANENT_BAN_AFTER`] on, a temporary ban at a
    /// threshold of [`BAN_LEVELS`], no ban at any other count.
    pub open spec fn struck(self, now: Instant) -> AbuseEntry {
        if self.is_banned_at(now) {
            self
        } else {
            let strikes = (self.strikes + 1) as u32;
            let counted = AbuseEntry {
                strikes,
                last_violation: now,
                banned_until: None,
                permanent: false,
            };
            if strikes >= PERMANENT_BAN_AFTER {
                AbuseEntry { permanent: true, ..counted }
            } else {
                match escalation(strikes) {
                    Some(duration) => AbuseEntry {
                        banned_until: Some((now + duration) as Instant),
                        ..counted
                    },
                    None => counted,
                }
            }
        }
    }

    /// Whether a strike at `now` finds or leaves the identity banned.
    pub open spec fn strike_bans(self, now: Instant) -> bool {
        self.is_banned_at(now) || self.strikes + 1 >= PERMANENT_BAN_AFTER || escalation(
            (self.strikes + 1) as u32,
        ) is Some
    }
}

/// Looks up the length of the ban that `strikes` strikes bring.
pub fn escalation_for(strikes: u32) -> (duration: Option<Span>)
    ensures
        duration == escalation(strikes),
{
    let mut i: usize = 0;
    while i < BAN_LEVELS.len()
        invariant
            i <= BAN_LEVELS@.len(),
            forall|k: int| 0 <= k < i ==> !escalates_at(strikes, k),
        decreases BAN_LEVELS@.len() - i,
    {
        let level: (u32, Span) = BAN_LEVELS[i];
        if level.0 == strikes {
            proof {
                lemma_escalation_at_level(i as int);
            }
            return Some(level.1);
        }
        i += 1;
    }
    None
}

impl AbuseEntry {
    /// Tells whether the identity is banned at `now`.
    pub fn is_banned(&self, now: Instant) -> (banned: bool)
        ensures
            banned == self.is_banned_at(now),
    {
        self.permanent || match self.banned_until {
            Some(until) => now < until,
            None => false,
        }
    }

    /// Tells whether a strike at `now` can be counted.
    pub fn strike_fits(&self, now: Instant) -> (fits: bool)
        ensures
            fits == self.can_strike(now),
    {
        if self.is_banned(now) {
            true
        } else if self.strikes == u32::MAX {
            false
        } else {
            match escalation_for(self.strikes + 1) {
                Some(duration) => now <= u64::MAX - duration,
                None => true,
            }
        }
    }

    /// The entry after a strike at `now`, and whether the strike finds or
    /// leaves the identity banned.
    pub fn strike(self, now: Instant) -> (outcome: (AbuseEntry, bool))
        requires
            self.can_strike(now),
        ensures
            outcome.0 == self.struck(now),
            outcome.1 == self.strike_bans(now),
    {
        let mut entry = self;
        if AbuseTracker::cleanup_ban(&mut entry, now) {
            return (self, true);
        }
        entry.strikes += 1;
        entry.last_violation = now;
        if entry.strikes >= PERMANENT_BAN_AFTER {
            entry.permanent = true;
            return (entry, true);
        }
        match escalation_for(entry.strikes) {
            Some(duration) => {
                entry.banned_until = Some(now + duration);
                (entry, true)
            },
            None => (entry, false),
        }
    }
}

/// The strike and ban state of every identity that has been seen.
pub struct AbuseTracker {
    pub entries: StringHashMap<AbuseEntry>,
}

impl View for AbuseTracker {
    type V = Map<Seq<char>, AbuseEntry>;

    open spec fn view(&self) -> Map<Seq<char>, AbuseEntry> {
        self.entries@
    }
}

/// The entry of `ip`, or a fresh one if the identity was never seen.
pub open spec fn entry_of(entries: Map<Seq<char>, AbuseEntry>, ip: Seq<char>, now: Instant) -> AbuseEntry {
    if entries.contains_key(ip) {
        entries[ip]
    } else {
        AbuseEntry::fresh(now)
    }
}

/// `ip` is known to the tracker and banned at `now`.
pub open spec fn banned_in(entries: Map<Seq<char>, AbuseEntry>, ip: Seq<char>, now: Instant) -> bool {
    entries.contains_key(ip) && entries[ip].is_banned_at(now)
}

/// The entries after a look at `ip` at `now`: a ban of `ip` that has run out
/// is cleared, and an identity that was never seen stays unknown.
pub open spec fn looked_at(entries: Map<Seq<char>, AbuseEntry>, ip: Seq<char>, now: Instant) -> Map<
    Seq<char>,
    AbuseEntry,
> {
    if entries.contains_key(ip) {
        entries.insert(ip, entries[ip].settled(now))
    } else {
        entries
    }
}

/// The entries after a strike of `ip` at `now`.
pub open spec fn struck_in(entries: Map<Seq<char>, AbuseEntry>, ip: Seq<char>, now: Instant) -> Map<
    Seq<char>,
    AbuseEntry,
> {
    entries.insert(ip, entry_of(entries, ip, now).struck(now))
}

/// A snapshot as plain values: identities with their strike counts.
pub open spec fn snapshot_view(snapshot: Seq<(String, u32)>) -> Seq<(Seq<char>, u32)> {
    snapshot.map_values(|pair: (String, u32)| (pair.0@, pair.1))
}

/// The entries after the strike counts of `snapshot` were written over them
/// in order, each as by [`AbuseTracker::set_strikes`].
pub open spec fn restored(
    entries: Map<Seq<char>, AbuseEntry>,
    snapshot: Seq<(Seq<char>, u32)>,
    now: Instant,
) -> Map<Seq<char>, AbuseEntry>
    decreases snapshot.len(),
{
    if snapshot.len() == 0 {
        entries
    } else {
        let before = restored(entries, snapshot.drop_last(), now);
        let ip = snapshot.last().0;
        before.insert(ip, AbuseEntry { strikes: snapshot.last().1, ..entry_of(before, ip, now) })
    }
}

/// The strike count of every identity, without its ban state.
pub open spec fn strike_counts(entries: Map<Seq<char>, AbuseEntry>) -> Map<Seq<char>, u32> {
    entries.map_values(|entry: AbuseEntry| entry.strikes)
}

/// The entry after a strike at each of `times`, one after another.
pub open spec fn struck_all(entry: AbuseEntry, times: Seq<Instant>) -> AbuseEntry
    decreases times.len(),
{
    if times.len() == 0 {
        entry
    } else {
        struck_all(entry, times.drop_last()).struck(times.last())
    }
}

impl AbuseTracker {
    /// A tracker that has seen no identity.
    pub fn new() -> (tracker: Self)
        ensures
            tracker@ == Map::<Seq<char>, AbuseEntry>::empty(),
    {
        Self { entries: StringHashMap::new() }
    }

    /// Tells whether `entry` is banned at `now`, and clears a temporary ban
    /// that has run out.
    pub fn cleanup_ban(entry: &mut AbuseEntry, now: Instant) -> (banned: bool)
        ensures
            banned == old(entry).is_banned_at(now),
            *final(entry) == old(entry).settled(now),
    {
        if entry.permanent {
            return true;
        }
        if let Some(until) = entry.banned_until {
            if now < until {
                return true;
            } else {
                entry.banned_until = None;
            }
        }
        false
    }

    /// Sets the strike count of `ip`, keeping what else is known of it. An
    /// identity that was never seen gets a fresh entry first.
    pub fn set_strikes(&mut self, ip: &str, strikes: u32, now: Instant)
        ensures
            final(self)@ == old(self)@.insert(
                ip@,
                AbuseEntry { strikes, ..entry_of(old(self)@, ip@, now) },
            ),
    {
        let mut entry = self.lookup(ip, now);
        entry.strikes = strikes;
        self.entries.insert(ip.to_owned(), entry);
    }

    /// Tells whether `ip` is banned at `now`. A temporary ban that has run
    /// out is cleared on the way; an identity that was never seen stays
    /// unknown.
    pub fn is_banned(&mut self, ip: &str, now: Instant) -> (banned: bool)
        ensures
            banned == banned_in(old(self)@, ip@, now),
            final(self)@ == looked_at(old(self)@, ip@, now),
    {
        let found: Option<AbuseEntry> = match self.entries.get(ip) {
            Some(entry) => Some(*entry),
            None => None,
        };
        match found {
            Some(mut entry) => {
                let banned = Self::cleanup_ban(&mut entry, now);
                self.entries.insert(ip.to_owned(), entry);
                banned
            },
            None => false,
        }
    }

    /// Registers a rule violation of `ip` at `now` and returns the strike
    /// count together with whether the identity is banned. No strike is
    /// counted while the identity is banned.
    pub fn register_strike(&mut self, ip: &str, now: Instant) -> (outcome: (u32, bool))
        requires
            entry_of(old(self)@, ip@, now).can_strike(now),
        ensures
            final(self)@ == struck_in(old(self)@, ip@, now),
            outcome.0 == entry_of(old(self)@, ip@, now).struck(now).strikes,
            outcome.1 == entry_of(old(self)@, ip@, now).strike_bans(now),
    {
        let (entry, banned) = self.lookup(ip, now).strike(now);
        self.entries.insert(ip.to_owned(), entry);
        (entry.strikes, banned)
    }

    /// Tells whether a strike of `ip` at `now` can be counted, that is,
    /// whether [`AbuseTracker::register_strike`] may be called for it.
    pub fn strike_fits(&self, ip: &str, now: Instant) -> (fits: bool)
        ensures
            fits == entry_of(self@, ip@, now).can_strike(now),
    {
        self.lookup(ip, now).strike_fits(now)
    }

    /// What [`AbuseTracker::register_strike`] would return for `ip` at
    /// `now`, without registering anything.
    pub fn preview_strike(&self, ip: &str, now: Instant) -> (outcome: (u32, bool))
        requires
            entry_of(self@, ip@, now).can_strike(now),
        ensures
            outcome.0 == entry_of(self@, ip@, now).struck(now).strikes,
            outcome.1 == entry_of(self@, ip@, now).strike_bans(now),
    {
        let (entry, banned) = self.lookup(ip, now).strike(now);
        (entry.strikes, banned)
    }

    /// Overwrites strike counts with those of a durable snapshot, pair by
    /// pair. Only counts are restored: an identity of the snapshot keeps the
    /// ban state the tracker had for it, and has none if it was never seen.
    pub fn restore(&mut self, snapshot: &Vec<(String, u32)>, now: Instant)
        ensures
            final(self)@ == restored(old(self)@, snapshot_view(snapshot@), now),
    {
        let mut i: usize = 0;
        while i < snapshot.len()
            invariant
                i <= snapshot.len(),
                self@ == restored(old(self)@, snapshot_view(snapshot@).take(i as int), now),
            decreases snapshot.len() - i,
        {
            proof {
                let upto = snapshot_view(snapshot@).take(i + 1);
                assert(upto.drop_last() == snapshot_view(snapshot@).take(i as int));
                assert(upto.last() == (snapshot@[i as int].0@, snapshot@[i as int].1));
            }
            self.set_strikes(snapshot[i].0.as_str(), snapshot[i].1, now);
            i += 1;
        }
        proof {
            assert(snapshot_view(snapshot@).take(snapshot.len() as int) == snapshot_view(
                snapshot@,
            ));
        }
    }

    /// The entry of `ip`, or a fresh one if the identity was never seen.
    fn lookup(&self, ip: &str, now: Instant) -> (entry: AbuseEntry)
        ensures
            entry == entry_of(self@, ip@, now),
    {
        match self.entries.get(ip) {
            Some(entry) => *entry,
            None => AbuseEntry {
                strikes: 0,
                last_violation: now,
                banned_until: None,
                permanent: false,
            },
        }
    }
}

/// No ban of the table is empty or longer than [`LONGEST_BAN`].
pub proof fn lemma_escalation_bounded(strikes: u32)
    ensures
        escalation(strikes) matches Some(duration) ==> 0 < duration <= LONGEST_BAN,
{
    lemma_ban_levels_well_formed();
}

// Laws of the strike engine.

/// A strike that keeps the count below the first threshold of the table does
/// not ban: it is counted, and the identity is banned at no time afterwards.
pub proof fn lemma_low_strike_never_bans(entry: AbuseEntry, now: Instant)
    requires
        !entry.is_banned_at(now),
        entry.strikes + 1 < BAN_LEVELS@[0].0,
    ensures
        !entry.strike_bans(now),
        entry.struck(now).strikes == entry.strikes + 1,
        forall|later: Instant| !entry.struck(now).is_banned_at(later),
{
    lemma_ban_levels_well_formed();
    let strikes = (entry.strikes + 1) as u32;
    assert forall|i: int| !escalates_at(strikes, i) by {
        if 0 < i < BAN_LEVELS@.len() {
            assert(BAN_LEVELS@[0].0 < BAN_LEVELS@[i].0);
        }
    }
}

/// An identity that is not banned and collects fewer strikes than the first
/// threshold asks for is never banned by them, whenever they come: each is
/// counted, each is answered with "not banned", and no ban is left behind.
pub proof fn lemma_strikes_below_first_threshold(entry: AbuseEntry, times: Seq<Instant>)
    requires
        !entry.permanent,
        times.len() > 0 ==> !entry.is_banned_at(times[0]),
        entry.strikes + times.len() < BAN_LEVELS@[0].0,
    ensures
        struck_all(entry, times).strikes == entry.strikes + times.len(),
        !struck_all(entry, times).permanent,
        times.len() > 0 ==> struck_all(entry, times).banned_until is None,
        forall|k: int|
            0 <= k < times.len() ==> !(#[trigger] struck_all(entry, times.take(k))).strike_bans(
                times[k],
            ),
    decreases times.len(),
{
    if times.len() > 0 {
        let earlier = times.drop_last();
        lemma_strikes_below_first_threshold(entry, earlier);
        let before = struck_all(entry, earlier);
        assert(!before.is_banned_at(times.last()));
        lemma_low_strike_never_bans(before, times.last());
        assert forall|k: int| 0 <= k < times.len() implies !(#[trigger] struck_all(
            entry,
            times.take(k),
        )).strike_bans(times[k]) by {
            if k < times.len() - 1 {
                assert(times.take(k) == earlier.take(k));
            } else {
                assert(times.take(k) == earlier);
            }
        }
    }
}

/// The strike that brings the count to exactly a threshold of the table bans
/// the identity from `now` for that level's duration.
pub proof fn lemma_threshold_strike_bans(entry: AbuseEntry, now: Instant, level: int)
    requires
        0 <= level < BAN_LEVELS@.len(),
        !entry.is_banned_at(now),
        entry.strikes + 1 == BAN_LEVELS@[level].0,
        entry.can_strike(now),
    ensures
        entry.strike_bans(now),
        entry.struck(now).strikes == BAN_LEVELS@[level].0,
        entry.struck(now).banned_until == Some((now + BAN_LEVELS@[level].1) as Instant),
        !entry.struck(now).permanent,
        forall|later: Instant|
            entry.struck(now).is_banned_at(later) <==> later < now + BAN_LEVELS@[level].1,
{
    lemma_ban_levels_well_formed();
    lemma_escalation_at_level(level);
}

/// While an identity is banned, a strike changes nothing: the stored count
/// stays where it was and the answer is "banned".
pub proof fn lemma_strike_while_banned(entry: AbuseEntry, now: Instant)
    requires
        entry.is_banned_at(now),
    ensures
        entry.struck(now) == entry,
        entry.strike_bans(now),
{
}

/// Strikes that all come while the identity is banned are not recorded,
/// however many they are.
pub proof fn lemma_strikes_while_banned(entry: AbuseEntry, times: Seq<Instant>)
    requires
        forall|k: int| 0 <= k < times.len() ==> entry.is_banned_at(#[trigger] times[k]),
    ensures
        struck_all(entry, times) == entry,
    decreases times.len(),
{
    if times.len() > 0 {
        lemma_strikes_while_banned(entry, times.drop_last());
        assert(entry.is_banned_at(times[times.len() - 1]));
    }
}

/// After the strike that reaches a threshold, the stored count stays at the
/// threshold for as long as the ban runs: whatever strikes come before its
/// end, none of them is recorded.
pub proof fn lemma_count_stays_during_ban(
    entry: AbuseEntry,
    now: Instant,
    level: int,
    times: Seq<Instant>,
)
    requires
        0 <= level < BAN_LEVELS@.len(),
        !entry.is_banned_at(now),
        entry.strikes + 1 == BAN_LEVELS@[level].0,
        entry.can_strike(now),
        forall|k: int| 0 <= k < times.len() ==> #[trigger] times[k] < now + BAN_LEVELS@[level].1,
    ensures
        struck_all(entry.struck(now), times) == entry.struck(now),
        struck_all(entry.struck(now), times).strikes == BAN_LEVELS@[level].0,
{
    lemma_threshold_strike_bans(entry, now, level);
    lemma_strikes_while_banned(entry.struck(now), times);
}

/// Once a temporary ban has run out, the next strike is counted again.
pub proof fn lemma_strike_after_ban_lapsed(entry: AbuseEntry, now: Instant)
    requires
        !entry.permanent,
        entry.banned_until matches Some(until) && until <= now,
        entry.strikes < u32::MAX,
    ensures
        entry.settled(now).banned_until is None,
        entry.struck(now).strikes == entry.strikes + 1,
{
}

/// The strike that brings the count to the permanent threshold, or beyond
/// it, bans the identity for good.
pub proof fn lemma_permanent_threshold_bans(entry: AbuseEntry, now: Instant)
    requires
        !entry.is_banned_at(now),
        entry.strikes + 1 >= PERMANENT_BAN_AFTER,
        entry.strikes < u32::MAX,
    ensures
        entry.strike_bans(now),
        entry.struck(now).permanent,
        entry.struck(now).strikes == entry.strikes + 1,
        forall|later: Instant|
            #![trigger entry.struck(now).is_banned_at(later)]
            #![trigger entry.struck(now).settled(later)]
            entry.struck(now).is_banned_at(later) && entry.struck(now).settled(later)
                == entry.struck(now),
{
}

/// A permanent ban is final. At every time the identity is banned, a look at
/// the entry clears nothing, whether or not an old temporary ban has run
/// out, and a strike changes nothing.
pub proof fn lemma_permanent_ban_is_final(entry: AbuseEntry, later: Instant)
    requires
        entry.permanent,
    ensures
        entry.is_banned_at(later),
        entry.settled(later) == entry,
        entry.struck(later) == entry,
        entry.strike_bans(later),
{
}

/// The answer to a strike is "banned" exactly if the identity is banned
/// right after it.
pub proof fn lemma_strike_bans_iff_banned_after(entry: AbuseEntry, now: Instant)
    requires
        entry.can_strike(now),
    ensures
        entry.strike_bans(now) == entry.struck(now).is_banned_at(now),
{
    lemma_escalation_bounded((entry.strikes + 1) as u32);
}

/// Strike counts never go down by a strike or by a look at the entry.
pub proof fn lemma_strikes_monotone(entry: AbuseEntry, now: Instant)
    requires
        entry.can_strike(now),
    ensures
        entry.struck(now).strikes >= entry.strikes,
        entry.settled(now).strikes == entry.strikes,
{
}

// Laws of restoring.

/// Restoring writes strike counts only. Whatever the snapshot holds, every
/// identity keeps the ban state the tracker had for it, and an identity that
/// the tracker had not seen comes out without a ban.
pub proof fn lemma_restore_keeps_ban_state(
    entries: Map<Seq<char>, AbuseEntry>,
    snapshot: Seq<(Seq<char>, u32)>,
    now: Instant,
    ip: Seq<char>,
)
    ensures
        entry_of(restored(entries, snapshot, now), ip, now).banned_until == entry_of(
            entries,
            ip,
            now,
        ).banned_until,
        entry_of(restored(entries, snapshot, now), ip, now).permanent == entry_of(
            entries,
            ip,
            now,
        ).permanent,
        entry_of(restored(entries, snapshot, now), ip, now).last_violation == entry_of(
            entries,
            ip,
            now,
        ).last_violation,
    decreases snapshot.len(),
{
    if snapshot.len() > 0 {
        lemma_restore_keeps_ban_state(entries, snapshot.drop_last(), now, ip);
    }
}

/// An identity that the snapshot does not name is left as it was.
pub proof fn lemma_restore_leaves_others(
    entries: Map<Seq<char>, AbuseEntry>,
    snapshot: Seq<(Seq<char>, u32)>,
    now: Instant,
    ip: Seq<char>,
)
    requires
        forall|i: int| 0 <= i < snapshot.len() ==> (#[trigger] snapshot[i]).0 != ip,
    ensures
        restored(entries, snapshot, now).contains_key(ip) == entries.contains_key(ip),
        entries.contains_key(ip) ==> restored(entries, snapshot, now)[ip] == entries[ip],
    decreases snapshot.len(),
{
    if snapshot.len() > 0 {
        lemma_restore_leaves_others(entries, snapshot.drop_last(), now, ip);
        assert(snapshot[snapshot.len() - 1].0 != ip);
    }
}

/// After a restore, an identity of the snapshot has exactly the strike count
/// that the snapshot gives it. Where the snapshot names an identity more
/// than once, its last pair counts.
pub proof fn lemma_restore_reproduces_count(
    entries: Map<Seq<char>, AbuseEntry>,
    snapshot: Seq<(Seq<char>, u32)>,
    now: Instant,
    i: int,
)
    requires
        0 <= i < snapshot.len(),
        forall|j: int| i < j < snapshot.len() ==> (#[trigger] snapshot[j]).0 != snapshot[i].0,
    ensures
        restored(entries, snapshot, now).contains_key(snapshot[i].0),
        restored(entries, snapshot, now)[snapshot[i].0].strikes == snapshot[i].1,
    decreases snapshot.len(),
{
    if i < snapshot.len() - 1 {
        assert(snapshot[snapshot.len() - 1].0 != snapshot[i].0);
        lemma_restore_reproduces_count(entries, snapshot.drop_last(), now, i);
    }
}

/// Round trip. A snapshot that lists the strike count of every identity of a
/// tracker, restored into a tracker that has seen nothing, gives every
/// identity the strike count it had, and no other identity any.
pub proof fn lemma_restore_round_trip(
    entries: Map<Seq<char>, AbuseEntry>,
    snapshot: Seq<(Seq<char>, u32)>,
    now: Instant,
)
    requires
        forall|i: int|
            0 <= i < snapshot.len() ==> entries.contains_key((#[trigger] snapshot[i]).0)
                && entries[snapshot[i].0].strikes == snapshot[i].1,
        forall|ip: Seq<char>|
            entries.contains_key(ip) ==> exists|i: int|
                0 <= i < snapshot.len() && (#[trigger] snapshot[i]).0 == ip,
    ensures
        strike_counts(restored(Map::empty(), snapshot, now)) == strike_counts(entries),
{
    let empty = Map::<Seq<char>, AbuseEntry>::empty();
    let after = restored(empty, snapshot, now);
    assert forall|ip: Seq<char>| after.contains_key(ip) == entries.contains_key(ip) by {
        if entries.contains_key(ip) {
            let last = lemma_last_occurrence(snapshot, ip);
            lemma_restore_reproduces_count(empty, snapshot, now, last);
        } else {
            lemma_restore_leaves_others(empty, snapshot, now, ip);
        }
    }
    assert forall|ip: Seq<char>| entries.contains_key(ip) implies after[ip].strikes
        == entries[ip].strikes by {
        let last = lemma_last_occurrence(snapshot, ip);
        lemma_restore_reproduces_count(empty, snapshot, now, last);
    }
    assert(strike_counts(after) =~= strike_counts(entries));
}

/// An identity that a snapshot names has a last pair in it.
proof fn lemma_last_occurrence(snapshot: Seq<(Seq<char>, u32)>, ip: Seq<char>) -> (last: int)
    requires
        exists|i: int| 0 <= i < snapshot.len() && (#[trigger] snapshot[i]).0 == ip,
    ensures
        0 <= last < snapshot.len(),
        snapshot[last].0 == ip,
        forall|j: int| last < j < snapshot.len() ==> (#[trigger] snapshot[j]).0 != ip,
    decreases snapshot.len(),
{
    let end = snapshot.len() - 1;
    if snapshot[end].0 == ip {
        end
    } else {
        let witness = choose|i: int| 0 <= i < snapshot.len() && (#[trigger] snapshot[i]).0 == ip;
        assert(snapshot.drop_last()[witness].0 == ip);
        let last = lemma_last_occurrence(snapshot.drop_last(), ip);
        assert forall|j: int| last < j < snapshot.len() implies (#[trigger] snapshot[j]).0
            != ip by {
            if j < end {
                assert(snapshot.drop_last()[j].0 != ip);
            }
        }
        last
    }
}

} // verus!
