//! The two request counters: one for the whole service, one per identity.

use vstd::prelude::*;
use vstd::hash_map::StringHashMap;
use crate::abuse::{banned_in, entry_of, looked_at, struck_in, AbuseEntry, AbuseTracker};
use crate::storage::ban::{ban_write, BanWrite, DurableAnswer};
use crate::clock::{Instant, Span, NANOS_PER_SEC};
use crate::state::{register_strike, strike_fits};
use crate::window::{admits, check_and_record, checked, pruned};

verus! {

/// Requests the whole service admits within one [`GLOBAL_WINDOW`].
pub const GLOBAL_MAX_REQUESTS: usize = 1000;

/// Length of the service-wide window.
pub const GLOBAL_WINDOW: Span = 60 * NANOS_PER_SEC;

/// Requests one identity is admitted within one [`IP_WINDOW`].
pub const IP_MAX_REQUESTS: usize = 100;

/// Length of the per-identity window.
pub const IP_WINDOW: Span = 60 * NANOS_PER_SEC;

/// The service-wide sliding window.
pub struct GlobalRateLimiter {
    pub hits: Vec<Instant>,
}

impl View for GlobalRateLimiter {
    type V = Seq<Instant>;

    open spec fn view(&self) -> Seq<Instant> {
        self.hits@
    }
}

impl GlobalRateLimiter {
    /// A limiter that has seen no request.
    pub fn new() -> (limiter: Self)
        ensures
            limiter@ == Seq::<Instant>::empty(),
    {
        Self { hits: Vec::new() }
    }

    /// Checks a request at `now` against the service-wide ceiling, recording
    /// it if it is admitted.
    pub fn check_and_record(&mut self, now: Instant) -> (allowed: bool)
        ensures
            allowed == admits(old(self)@, now, GLOBAL_WINDOW, GLOBAL_MAX_REQUESTS as nat),
            final(self)@ == checked(old(self)@, now, GLOBAL_WINDOW, GLOBAL_MAX_REQUESTS as nat),
    {
        check_and_record(&mut self.hits, now, GLOBAL_WINDOW, GLOBAL_MAX_REQUESTS)
    }
}

/// One sliding window per identity.
pub struct IPRateLimiter {
    pub hits: StringHashMap<Vec<Instant>>,
}

impl View for IPRateLimiter {
    type V = Map<Seq<char>, Seq<Instant>>;

    open spec fn view(&self) -> Map<Seq<char>, Seq<Instant>> {
        self.hits@.map_values(|hits: Vec<Instant>| hits@)
    }
}

/// The window of `ip`; empty for an identity that was never seen.
pub open spec fn window_of(windows: Map<Seq<char>, Seq<Instant>>, ip: Seq<char>) -> Seq<Instant> {
    if windows.contains_key(ip) {
        windows[ip]
    } else {
        Seq::empty()
    }
}

impl IPRateLimiter {
    /// A limiter that has seen no identity.
    pub fn new() -> (limiter: Self)
        ensures
            limiter@ == Map::<Seq<char>, Seq<Instant>>::empty(),
    {
        let limiter = Self { hits: StringHashMap::new() };
        assert(limiter@ =~= Map::<Seq<char>, Seq<Instant>>::empty());
        limiter
    }

    /// Checks a request of `ip` at `now` against the per-identity ceiling,
    /// recording it if it is admitted. Other identities are left alone.
    pub fn check_and_record(&mut self, ip: &str, now: Instant) -> (allowed: bool)
        ensures
            allowed == admits(window_of(old(self)@, ip@), now, IP_WINDOW, IP_MAX_REQUESTS as nat),
            final(self)@ == old(self)@.insert(
                ip@,
                checked(window_of(old(self)@, ip@), now, IP_WINDOW, IP_MAX_REQUESTS as nat),
            ),
    {
        let mut kept: Vec<Instant> = match self.hits.get(ip) {
            Some(hits) => pruned(hits, now, IP_WINDOW),
            None => {
                proof {
                    crate::window::lemma_retained_empty(now, IP_WINDOW);
                }
                Vec::new()
            },
        };
        let allowed = kept.len() < IP_MAX_REQUESTS;
        if allowed {
            kept.push(now);
        }
        let ghost recorded = kept@;
        self.hits.insert(ip.to_owned(), kept);
        assert(self@ =~= old(self)@.insert(ip@, recorded));
        allowed
    }
}

/// What becomes of a request.
#[derive(Clone, Copy, Debug, PartialEq, Eq, Structural)]
pub enum Verdict {
    /// The identity is banned: "forbidden".
    Banned,
    /// The whole service is over its ceiling: "too many requests".
    Busy,
    /// The identity is over its ceiling and got a strike for it, but is not
    /// banned: "too many requests".
    SlowDown,
    /// The request goes on to its handler.
    Pass,
}

impl Verdict {
    /// The HTTP status that answers a request which does not pass.
    pub open spec fn spec_status(self) -> Option<u16> {
        match self {
            Verdict::Banned => Some(403),
            Verdict::Busy => Some(429),
            Verdict::SlowDown => Some(429),
            Verdict::Pass => None,
        }
    }

    /// The words that answer a request which does not pass.
    pub open spec fn spec_message(self) -> Option<Seq<char>> {
        match self {
            Verdict::Banned => Some("Your IP has been banned."@),
            Verdict::Busy => Some("Server is busy, please try again later."@),
            Verdict::SlowDown => Some("Too many requests, please slow down."@),
            Verdict::Pass => None,
        }
    }

    /// The words that answer the request, unless it passes.
    pub fn message(&self) -> (message: Option<&'static str>)
        ensures
            match message {
                Some(text) => self.spec_message() == Some(text@),
                None => self.spec_message() is None,
            },
    {
        match self {
            Verdict::Banned => Some("Your IP has been banned."),
            Verdict::Busy => Some("Server is busy, please try again later."),
            Verdict::SlowDown => Some("Too many requests, please slow down."),
            Verdict::Pass => None,
        }
    }

    /// The HTTP status that answers the request, unless it passes.
    pub fn status(&self) -> (status: Option<u16>)
        ensures
            status == self.spec_status(),
    {
        match self {
            Verdict::Banned => Some(403),
            Verdict::Busy => Some(429),
            Verdict::SlowDown => Some(429),
            Verdict::Pass => None,
        }
    }
}

/// A verdict, and what the durable store has to be told because of it.
#[derive(Clone, Copy, Debug, PartialEq, Eq, Structural)]
pub struct Admission {
    pub verdict: Verdict,
    pub write: BanWrite,
}

/// The request meets a ban: in the durable store, or in the tracker.
pub open spec fn meets_ban(
    durable: DurableAnswer,
    entries: Map<Seq<char>, AbuseEntry>,
    ip: Seq<char>,
    now: Instant,
) -> bool {
    durable is Banned || banned_in(entries, ip, now)
}

/// The request is not banned and within the service-wide ceiling, but over
/// the ceiling of its identity: it earns a strike.
pub open spec fn earns_strike(
    durable: DurableAnswer,
    entries: Map<Seq<char>, AbuseEntry>,
    global: Seq<Instant>,
    windows: Map<Seq<char>, Seq<Instant>>,
    ip: Seq<char>,
    now: Instant,
) -> bool {
    &&& !meets_ban(durable, entries, ip, now)
    &&& admits(global, now, GLOBAL_WINDOW, GLOBAL_MAX_REQUESTS as nat)
    &&& !admits(window_of(windows, ip), now, IP_WINDOW, IP_MAX_REQUESTS as nat)
}

/// The verdict on a request of `ip` at `now`. The ban is checked first, then
/// the service-wide ceiling, then the ceiling of the identity; overrunning
/// that one is a strike, which may ban.
pub open spec fn verdict_for(
    durable: DurableAnswer,
    entries: Map<Seq<char>, AbuseEntry>,
    global: Seq<Instant>,
    windows: Map<Seq<char>, Seq<Instant>>,
    ip: Seq<char>,
    now: Instant,
) -> Verdict {
    if meets_ban(durable, entries, ip, now) {
        Verdict::Banned
    } else if !admits(global, now, GLOBAL_WINDOW, GLOBAL_MAX_REQUESTS as nat) {
        Verdict::Busy
    } else if admits(window_of(windows, ip), now, IP_WINDOW, IP_MAX_REQUESTS as nat) {
        Verdict::Pass
    } else if entry_of(entries, ip, now).strike_bans(now) {
        Verdict::Banned
    } else {
        Verdict::SlowDown
    }
}

/// What is to be done next for a request. The steps come in one order: the
/// ban is looked at before anything is counted, the service-wide counter
/// before the identity's, and a strike only after the identity's counter
/// has denied.
#[derive(Clone, Copy, Debug, PartialEq, Eq, Structural)]
pub enum Step {
    /// Ask the tracker whether the identity is banned.
    AskTracker,
    /// Check the request against the service-wide window.
    CountForService,
    /// Check the request against the window of its identity.
    CountForIdentity,
    /// Register a strike for the identity.
    Strike,
    /// Nothing is left to do: this is the verdict.
    Answer(Verdict),
}

/// The first step, given what the durable store answered: its ban is the
/// verdict at once, any other answer leaves it to the tracker.
pub open spec fn spec_first_step(durable: DurableAnswer) -> Step {
    if durable is Banned {
        Step::Answer(Verdict::Banned)
    } else {
        Step::AskTracker
    }
}

/// The step that follows `step`, given how `step` came out: whether the
/// tracker knows the identity as banned, whether the window admitted the
/// request, whether the strike banned.
pub open spec fn spec_next_step(step: Step, outcome: bool) -> Step {
    match step {
        Step::AskTracker => if outcome {
            Step::Answer(Verdict::Banned)
        } else {
            Step::CountForService
        },
        Step::CountForService => if outcome {
            Step::CountForIdentity
        } else {
            Step::Answer(Verdict::Busy)
        },
        Step::CountForIdentity => if outcome {
            Step::Answer(Verdict::Pass)
        } else {
            Step::Strike
        },
        Step::Strike => if outcome {
            Step::Answer(Verdict::Banned)
        } else {
            Step::Answer(Verdict::SlowDown)
        },
        Step::Answer(verdict) => Step::Answer(verdict),
    }
}

/// Computes [`spec_first_step`].
pub fn first_step(durable: DurableAnswer) -> (step: Step)
    ensures
        step == spec_first_step(durable),
{
    match durable {
        DurableAnswer::Banned => Step::Answer(Verdict::Banned),
        _ => Step::AskTracker,
    }
}

/// Computes [`spec_next_step`].
pub fn next_step(step: Step, outcome: bool) -> (next: Step)
    ensures
        next == spec_next_step(step, outcome),
{
    match step {
        Step::AskTracker => if outcome {
            Step::Answer(Verdict::Banned)
        } else {
            Step::CountForService
        },
        Step::CountForService => if outcome {
            Step::CountForIdentity
        } else {
            Step::Answer(Verdict::Busy)
        },
        Step::CountForIdentity => if outcome {
            Step::Answer(Verdict::Pass)
        } else {
            Step::Strike
        },
        Step::Strike => if outcome {
            Step::Answer(Verdict::Banned)
        } else {
            Step::Answer(Verdict::SlowDown)
        },
        Step::Answer(verdict) => Step::Answer(verdict),
    }
}

/// Admission control for one request of `ip`: the steps from
/// [`first_step`] on, one after another, on state that the caller holds for
/// itself. `durable` is what the durable store answered for `ip`, `now` the
/// time on the monotonic clock and `unix_now` the time of day in seconds
/// since the Unix epoch.
///
/// A request that meets a ban uses up nothing: neither counter sees it. A
/// request that the service-wide counter denies is not counted for its
/// identity. Only a request that earns a strike asks anything of its
/// caller: that the strike can be registered.
pub fn rate_limit(
    durable: DurableAnswer,
    tracker: &mut AbuseTracker,
    global: &mut GlobalRateLimiter,
    per_ip: &mut IPRateLimiter,
    ip: &str,
    now: Instant,
    unix_now: i64,
) -> (admission: Admission)
    requires
        earns_strike(durable, old(tracker)@, old(global)@, old(per_ip)@, ip@, now) ==> strike_fits(
            old(tracker)@,
            ip@,
            now,
            unix_now,
        ),
    ensures
        admission.verdict == verdict_for(
            durable,
            old(tracker)@,
            old(global)@,
            old(per_ip)@,
            ip@,
            now,
        ),
        final(tracker)@ == if durable is Banned {
            old(tracker)@
        } else if earns_strike(durable, old(tracker)@, old(global)@, old(per_ip)@, ip@, now) {
            struck_in(old(tracker)@, ip@, now)
        } else {
            looked_at(old(tracker)@, ip@, now)
        },
        final(global)@ == if meets_ban(durable, old(tracker)@, ip@, now) {
            old(global)@
        } else {
            checked(old(global)@, now, GLOBAL_WINDOW, GLOBAL_MAX_REQUESTS as nat)
        },
        final(per_ip)@ == if meets_ban(durable, old(tracker)@, ip@, now) || !admits(
            old(global)@,
            now,
            GLOBAL_WINDOW,
            GLOBAL_MAX_REQUESTS as nat,
        ) {
            old(per_ip)@
        } else {
            old(per_ip)@.insert(
                ip@,
                checked(window_of(old(per_ip)@, ip@), now, IP_WINDOW, IP_MAX_REQUESTS as nat),
            )
        },
        admission.write == if earns_strike(
            durable,
            old(tracker)@,
            old(global)@,
            old(per_ip)@,
            ip@,
            now,
        ) && !(durable is NoStore) {
            ban_write(
                entry_of(old(tracker)@, ip@, now).struck(now).strikes,
                entry_of(old(tracker)@, ip@, now).strike_bans(now),
                unix_now,
            )
        } else {
            BanWrite::Nothing
        },
{
    let mut step = first_step(durable);
    let mut write = BanWrite::Nothing;
    if let Step::AskTracker = step {
        let banned = tracker.is_banned(ip, now);
        step = next_step(step, banned);
    }
    if let Step::CountForService = step {
        let admitted = global.check_and_record(now);
        step = next_step(step, admitted);
    }
    if let Step::CountForIdentity = step {
        let admitted = per_ip.check_and_record(ip, now);
        step = next_step(step, admitted);
    }
    if let Step::Strike = step {
        proof {
            let before = entry_of(old(tracker)@, ip@, now);
            assert(entry_of(tracker@, ip@, now).can_strike(now) == before.can_strike(now));
            assert(entry_of(tracker@, ip@, now).struck(now) == before.struck(now));
            assert(struck_in(tracker@, ip@, now) =~= struck_in(old(tracker)@, ip@, now));
        }
        let report = register_strike(tracker, ip, now, unix_now);
        write =
        match durable {
            DurableAnswer::NoStore => BanWrite::Nothing,
            _ => report.write,
        };
        step = next_step(step, report.banned);
    }
    match step {
        Step::Answer(verdict) => Admission { verdict, write },
        _ => vstd::pervasive::unreached(),
    }
}

} // verus!
