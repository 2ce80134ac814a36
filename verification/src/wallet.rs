//! On-ledger wallet view: balance, residual credits, and the last committed
//! activity shard.

use vstd::prelude::*;
use crate::shards::PaycompShard;
use crate::subcent::UsdMills;

verus! {

#[derive(Clone, Debug)]
pub struct Wallet {
    pub owner_did: String,
    /// Current on-ledger balance (mills).
    pub balance_mills: UsdMills,
    /// Residual mill balance (accumulated rounding credits).
    pub residual_credit_mills: UsdMills,
    /// Last committed shard snapshot.
    pub last_shard: Option<PaycompShard>,
}

impl Wallet {
    /// The balance covers the amount; residual credits do not count.
    pub fn can_spend(&self, amount: UsdMills) -> (r: bool)
        ensures
            r == (self.balance_mills.0 >= amount.0),
    {
        self.balance_mills.0 >= amount.0
    }
}

} // verus!
