//! Admission-control guard for a spend capability gated on a subject's live
//! internal state signal.
//!
//! The core is an ordered, short-circuiting chain of gates: sticky suspension,
//! hourly rate caps, an amount cap, a signal corridor with a hysteresis
//! (minimum-stability) timer, an external confirmation gate, and a risk-score
//! policy gate.  Every terminal outcome is a `(decision, reason)` pair plus an
//! optional audit record; absence of positive confirmation is never treated as
//! approval.
//!
//! Normalized scalars (signal values, loads, risk scores) are fixed-point
//! thousandths: `0` stands for 0.0 and `1000` for 1.0.  Money amounts are in
//! mills (1 mill = 0.001 USD).  Times are in seconds.

use vstd::prelude::*;

pub mod biophysical;
pub mod consent;
pub mod evolution;
pub mod governance;
pub mod guard;
pub mod guards;
pub mod nano;
pub mod prompt;
pub mod roh;
pub mod roles;
pub mod shards;
pub mod subcent;
pub mod wallet;

verus! {

/// Length of the fixed-boundary rate window, in seconds.
pub const WINDOW_SECS: u64 = 3600;

/// Relies on `<str as PartialEq>::eq`: two string slices compare equal
/// exactly when they hold the same characters.
#[verifier::external_body]
pub(crate) fn str_eq(a: &str, b: &str) -> (r: bool)
    ensures
        r == (a@ == b@),
{
    a == b
}

} // verus!
