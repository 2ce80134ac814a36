//! Admissibility of a transaction under K/E/R thresholds and named corridor
//! invariants of the payer's shard.

use vstd::prelude::*;
use crate::shards::{CorridorCoordinate, PaycompShard};
use crate::subcent::MillTransaction;
use crate::str_eq;

verus! {

/// Static corridor thresholds, typically loaded from configuration shards.
/// All values in thousandths.
pub struct CorridorThresholds {
    pub max_risk_r: u32,
    pub min_knowledge_k: u32,
    pub min_eco_e: u32,
}

pub struct GuardContext {
    pub thresholds: CorridorThresholds,
    /// Latest shards for the from/to DIDs.
    pub from_shard: PaycompShard,
    pub to_shard: PaycompShard,
}

/// The coordinate of the first corridor in `cs` named `name`, if any.
pub open spec fn spec_find_rx(cs: Seq<CorridorCoordinate>, name: Seq<char>) -> Option<u32>
    decreases cs.len(),
{
    if cs.len() == 0 {
        None
    } else if cs[0].name@ == name {
        Some(cs[0].rx)
    } else {
        spec_find_rx(cs.drop_first(), name)
    }
}

/// Look up the first corridor coordinate with the given name.
fn corridor_value(shard: &PaycompShard, name: &str) -> (r: Option<u32>)
    ensures
        r == spec_find_rx(shard.corridors@, name@),
{
    let n = shard.corridors.len();
    proof {
        assert(shard.corridors@.skip(0) =~= shard.corridors@);
    }
    for i in 0..n
        invariant
            n == shard.corridors@.len(),
            spec_find_rx(shard.corridors@, name@) == spec_find_rx(
                shard.corridors@.skip(i as int),
                name@,
            ),
    {
        let c = &shard.corridors[i];
        proof {
            assert(shard.corridors@.skip(i as int)[0] == shard.corridors@[i as int]);
            assert(shard.corridors@.skip(i as int).drop_first() =~= shard.corridors@.skip(
                i as int + 1,
            ));
        }
        if str_eq(c.name.as_str(), name) {
            return Some(c.rx);
        }
    }
    None
}

/// A transaction is admissible when both parties meet the knowledge and
/// eco-impact floors and the risk ceiling, and the payer's leverage and
/// surveillance-risk corridors (where present) are in band.
pub open spec fn spec_admit(ctx: GuardContext) -> bool {
    &&& ctx.from_shard.ker.k >= ctx.thresholds.min_knowledge_k
    &&& ctx.to_shard.ker.k >= ctx.thresholds.min_knowledge_k
    &&& ctx.from_shard.ker.e >= ctx.thresholds.min_eco_e
    &&& ctx.to_shard.ker.e >= ctx.thresholds.min_eco_e
    &&& ctx.from_shard.ker.r <= ctx.thresholds.max_risk_r
    &&& ctx.to_shard.ker.r <= ctx.thresholds.max_risk_r
    &&& (spec_find_rx(ctx.from_shard.corridors@, "debt_to_income"@) matches Some(rx)
        ==> rx <= 1000)
    &&& (spec_find_rx(ctx.from_shard.corridors@, "surveillance_risk"@) matches Some(rx)
        ==> rx <= 1000)
}

/// Returns true if the transaction is admissible under the K/E/R and
/// corridor invariants of `ctx`.  The transaction record itself carries no
/// further admission criteria.
pub fn admit_transaction(ctx: &GuardContext, tx: &MillTransaction) -> (r: bool)
    ensures
        r == spec_admit(*ctx),
{
    let _ = tx;

    // 1. Basic K/E/R thresholds for both parties.
    if ctx.from_shard.ker.k < ctx.thresholds.min_knowledge_k
        || ctx.to_shard.ker.k < ctx.thresholds.min_knowledge_k {
        return false;
    }
    if ctx.from_shard.ker.e < ctx.thresholds.min_eco_e
        || ctx.to_shard.ker.e < ctx.thresholds.min_eco_e {
        return false;
    }
    if ctx.from_shard.ker.r > ctx.thresholds.max_risk_r
        || ctx.to_shard.ker.r > ctx.thresholds.max_risk_r {
        return false;
    }

    // 2. Leverage / debt-to-income must stay in band.
    if let Some(rx_leverage) = corridor_value(&ctx.from_shard, "debt_to_income") {
        if rx_leverage > 1000 {
            // Out-of-band leverage: no new credit extension.
            return false;
        }
    }

    // 3. Surveillance risk cannot sit beyond 1.0 either.
    if let Some(rx_surv) = corridor_value(&ctx.from_shard, "surveillance_risk") {
        if rx_surv > 1000 {
            return false;
        }
    }

    true
}

} // verus!
