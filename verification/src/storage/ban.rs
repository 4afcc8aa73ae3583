//! The durable mirror of ban decisions, as far as the library deals with it.
//!
//! The store itself lives outside: it is asked before every request and
//! written to after every strike. The library says what an answer means,
//! what a stored record means, and what has to be written.

use vstd::prelude::*;
use crate::abuse::{escalation, escalation_for, PERMANENT_BAN_AFTER};
use crate::clock::NANOS_PER_SEC;

verus! {

/// What came back when the durable store was asked about an identity.
#[derive(Clone, Copy, Debug, PartialEq, Eq, Structural)]
pub enum DurableAnswer {
    /// There is no durable store.
    NoStore,
    /// The store holds an active ban.
    Banned,
    /// The store holds no active ban.
    NotBanned,
    /// The store could not be read.
    Failed,
}

/// What has to be written to the durable store after a strike.
#[derive(Clone, Copy, Debug, PartialEq, Eq, Structural)]
pub enum BanWrite {
    /// Nothing.
    Nothing,
    /// A ban until `until`, in seconds since the Unix epoch. With `until`
    /// zero the identity is not banned and only its strikes are kept.
    Temporary { until: i64, strikes: u32 },
    /// A ban for good.
    Permanent { strikes: u32 },
}

/// One record of the durable store.
#[derive(Clone, Copy, Debug, PartialEq, Eq, Structural)]
pub struct BanRecord {
    /// End of the temporary ban in seconds since the Unix epoch, if one was
    /// written.
    pub banned_until: Option<i64>,
    /// The stored flag: one for a permanent ban.
    pub permanent: i64,
    pub strikes: i64,
    pub created_at: i64,
}

impl BanRecord {
    /// The record bans its identity at `unix_now`: it is permanent, or its
    /// temporary ban ends later.
    pub open spec fn is_active_at(self, unix_now: i64) -> bool {
        self.permanent == 1 || (self.banned_until matches Some(until) && until > unix_now)
    }

    /// Tells whether the record bans its identity at `unix_now`.
    pub fn is_active(&self, unix_now: i64) -> (active: bool)
        ensures
            active == self.is_active_at(unix_now),
    {
        self.permanent == 1 || match self.banned_until {
            Some(until) => until > unix_now,
            None => false,
        }
    }
}

/// What the store is told after a strike that left the identity with
/// `strikes` strikes and the answer `banned`. A permanent ban is written as
/// such. A temporary ban is written with its end, counted from `unix_now`.
/// A strike that did not ban is written as a ban until zero, which keeps the
/// strike count and bans nobody. A strike that met a ban at a count that is
/// no threshold writes nothing.
pub open spec fn ban_write(strikes: u32, banned: bool, unix_now: i64) -> BanWrite {
    if !banned {
        BanWrite::Temporary { until: 0, strikes }
    } else if strikes >= PERMANENT_BAN_AFTER {
        BanWrite::Permanent { strikes }
    } else {
        match escalation(strikes) {
            Some(duration) => BanWrite::Temporary {
                until: (unix_now + duration / NANOS_PER_SEC) as i64,
                strikes,
            },
            None => BanWrite::Nothing,
        }
    }
}

/// The write after such a strike can be put down: where it carries the end
/// of a ban, that end fits its type.
pub open spec fn write_fits(strikes: u32, banned: bool, unix_now: i64) -> bool {
    banned && strikes < PERMANENT_BAN_AFTER ==> (escalation(strikes) matches Some(duration)
        ==> unix_now + duration / NANOS_PER_SEC <= i64::MAX)
}

/// Tells whether [`ban_write_for`] may be called with these values.
pub fn write_fits_for(strikes: u32, banned: bool, unix_now: i64) -> (fits: bool)
    ensures
        fits == write_fits(strikes, banned, unix_now),
{
    if !banned || strikes >= PERMANENT_BAN_AFTER {
        return true;
    }
    match escalation_for(strikes) {
        Some(duration) => {
            proof {
                crate::abuse::lemma_escalation_bounded(strikes);
            }
            let secs: u64 = duration / NANOS_PER_SEC;
            unix_now <= i64::MAX - secs as i64
        },
        None => true,
    }
}

/// Computes [`ban_write`].
pub fn ban_write_for(strikes: u32, banned: bool, unix_now: i64) -> (write: BanWrite)
    requires
        write_fits(strikes, banned, unix_now),
    ensures
        write == ban_write(strikes, banned, unix_now),
{
    if !banned {
        BanWrite::Temporary { until: 0, strikes }
    } else if strikes >= PERMANENT_BAN_AFTER {
        BanWrite::Permanent { strikes }
    } else {
        match escalation_for(strikes) {
            Some(duration) => {
                proof {
                    crate::abuse::lemma_escalation_bounded(strikes);
                }
                let secs: u64 = duration / NANOS_PER_SEC;
                BanWrite::Temporary { until: unix_now + secs as i64, strikes }
            },
            None => BanWrite::Nothing,
        }
    }
}

} // verus!
