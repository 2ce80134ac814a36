//! Sub-cent money amounts: mills, thousandths of a USD.

use vstd::prelude::*;

verus! {

/// Amount in thousandths of a USD (mills).  1 USD = 1000 mills.
#[derive(Clone, Copy, Debug, PartialEq, Eq, Structural)]
pub struct UsdMills(pub i64);

/// Core transaction record at mill resolution.
#[derive(Clone, Debug)]
pub struct MillTransaction {
    pub from_did: String,
    pub to_did: String,
    /// Amount transferred (in mills).
    pub amount_mills: UsdMills,
    /// Rounded display amount in cents, for UI compatibility.
    pub display_amount_cents: i64,
    /// Rounding residual in mills credited back to the payer's residual
    /// account.
    pub residual_mills_to_payer: i32,
}

} // verus!
