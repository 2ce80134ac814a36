//! Data shards summarizing a node's payment activity, eco metrics, and
//! K/E/R scores over a time window, plus the anchor shard that pins the
//! governing specification version.
//!
//! Scores and normalized corridor coordinates are fixed-point thousandths;
//! money totals are in mills.

use vstd::prelude::*;

verus! {

#[derive(Clone, Copy, Debug, PartialEq, Eq, Structural)]
pub enum NodeType {
    CitizenWallet,
    MerchantWallet,
    BankNode,
    MunicipalTreasury,
    PaymentGateway,
    HardwareTerminal,
}

/// K/E/R scores, each in thousandths of the unit interval.
#[derive(Clone, Copy, Debug, PartialEq, Eq, Structural)]
pub struct KerScores {
    /// Knowledge-factor: fraction of critical fields that are
    /// equation/data-backed.
    pub k: u32,
    /// Eco-impact: normalized benefit per $1,000 transacted.
    pub e: u32,
    /// Risk-of-harm: bounded residual risk.
    pub r: u32,
}

/// One named corridor coordinate.  `rx` is the normalized coordinate in
/// thousandths; values above 1000 are out of band.
#[derive(Clone, Debug)]
pub struct CorridorCoordinate {
    pub name: String,
    pub rx: u32,
    /// Optional human-readable unit / description.
    pub unit: Option<String>,
}

/// Activity summary for one node over one window.
#[derive(Clone, Debug)]
pub struct PaycompShard {
    /// DID of the node this shard describes.
    pub node_did: String,
    /// DID document reference (keys, metadata).
    pub node_doc: String,
    pub node_type: NodeType,
    /// Region or corridor ID.
    pub region_id: String,
    pub window_start_utc: i64,
    pub window_end_utc: i64,

    /// Total in-flow and out-flow over this period, in mills.
    pub usd_in: i64,
    pub usd_out: i64,

    /// Total number of transactions processed.
    pub tx_count: u64,
    /// Net residual delta due to sub-cent precision over the window.
    pub residual_sum_mills: i64,

    /// Computed eco metrics for this node and window, in thousandths.
    pub gwp_kgco2_per_1k: u32,
    pub water_recharge_m3_per_1k: u32,

    /// K/E/R scores for this shard/window.
    pub ker: KerScores,

    /// Corridor coordinates for key variables (leverage, outage risk,
    /// surveillance risk, and so on).
    pub corridors: Vec<CorridorCoordinate>,

    /// DID of the author.
    pub authored_by: String,
    /// Unix time of authorship.
    pub authored_at_utc: i64,
    /// DID signature over the serialized shard payload.
    pub signature: String,
}

/// Anchor shard pinning the specification a deployment runs under.
#[derive(Clone, Debug)]
pub struct SpecAnchorShard {
    pub spec_did: String,
    pub spec_doc: String,
    pub spec_version: String,
    pub ecosystem_namespace: String,
    /// Whether this specification passed continuous integration under the
    /// current grammar.
    pub ci_passed: bool,
    /// K/E/R meta-scores for the specification itself.
    pub ker_meta: KerScores,
    /// DID of the governance body that approved this specification.
    pub approved_by: Option<String>,
    pub approved_at_utc: Option<i64>,
    /// DID signature over this shard.
    pub signature: String,
}

} // verus!
