//! Time as the library sees it.
//!
//! The library never reads a clock. Every operation takes the current time
//! from its caller: as an [`Instant`], a count of nanoseconds on a monotonic
//! clock whose origin the caller picks once and keeps, or as a [`WallTime`],
//! the time of day in nanoseconds since the Unix epoch.

use vstd::prelude::*;

verus! {

/// A point on the caller's monotonic clock, in nanoseconds since its origin.
pub type Instant = u64;

/// A span of time in nanoseconds.
pub type Span = u64;

/// The time of day, in nanoseconds since the Unix epoch.
pub type WallTime = u64;

/// Nanoseconds in one second.
pub const NANOS_PER_SEC: u64 = 1_000_000_000;

/// Nanoseconds in one hour.
pub const NANOS_PER_HOUR: u64 = 3_600_000_000_000;

/// Something made at `created_at` to last `hours` hours has expired at
/// `now`: more than that time has passed, or it claims to be from the
/// future.
pub open spec fn expired(created_at: WallTime, hours: u32, now: WallTime) -> bool {
    now < created_at || now - created_at > hours * NANOS_PER_HOUR
}

/// Computes [`expired`].
pub fn has_expired(created_at: WallTime, hours: u32, now: WallTime) -> (gone: bool)
    ensures
        gone == expired(created_at, hours, now),
{
    if now < created_at {
        true
    } else {
        assert(hours * NANOS_PER_HOUR <= 0xffff_ffff * 3_600_000_000_000) by (nonlinear_arith)
            requires
                hours <= 0xffff_ffff,
                NANOS_PER_HOUR == 3_600_000_000_000,
        ;
        (now - created_at) as u128 > hours as u128 * NANOS_PER_HOUR as u128
    }
}

/// Time that has passed between `earlier` and `now`; zero when `earlier` is
/// not in the past.
pub open spec fn elapsed(now: Instant, earlier: Instant) -> nat {
    if now >= earlier {
        (now - earlier) as nat
    } else {
        0
    }
}

/// Computes [`elapsed`].
pub fn duration_since(now: Instant, earlier: Instant) -> (d: Span)
    ensures
        d == elapsed(now, earlier),
{
    if now >= earlier {
        now - earlier
    } else {
        0
    }
}

} // verus!
