//! Admission control for a public, write-heavy service, and the rules of the
//! content it guards.
//!
//! Every request passes three mechanisms. Sliding-window counters
//! ([`window`], [`rate_limit`]) cap the requests of the whole service and of
//! each client. A strike engine ([`abuse`]) bans clients that keep
//! overrunning their cap, first for a while and then for good, and says what
//! the durable mirror of its decisions has to hear ([`state`],
//! [`storage::ban`]). A stateless proof-of-work challenge ([`pow`]) taxes
//! the write routes. [`identity`] derives the string under which a client is
//! counted.
//!
//! The content itself is kept simple: pastes ([`bin`]), calendar events
//! ([`cal`]) and surveys ([`ask`]), each with its rules for what may be
//! stored and who may read it, and stores that keep them in memory
//! ([`storage::memory`]).
//!
//! The library reads no clock, opens no socket and touches no disk. Its
//! callers hand it the time and what arrived, and carry out what it decides.

pub mod clock;
pub mod text;
pub mod digest;
pub mod password;
pub mod window;
pub mod abuse;
pub mod storage;
pub mod state;
pub mod rate_limit;
pub mod identity;
pub mod pow;
pub mod bin;
pub mod cal;
pub mod ask;
