//! Website-governance data shards and the mutation router: page mutations
//! pass through a rights firewall supplied by the embedding application.
//!
//! Scores are fixed-point thousandths of the unit interval.

use vstd::prelude::*;

verus! {

#[derive(Clone, Copy, Debug, PartialEq, Eq, Structural)]
pub enum WebRole {
    ContentAuthor,
    Curator,
    GovernanceAdmin,
    NeurorightsFirewall,
}

/// Stake backing a chat asset.
#[derive(Clone, Debug)]
pub struct ChatStakeAsset {
    pub asset_id: String,
    pub owner_did: String,
    pub staked_micro_usd: i64,
    pub k_score: u32,
    pub e_score: u32,
    pub r_score: u32,
}

/// Governance configuration for one website.
#[derive(Clone, Debug)]
pub struct WebsiteGovernanceConfig {
    pub shard_id: String,
    /// Ceiling on a page's risk score, in thousandths.
    pub max_risk_per_page: u32,
    pub neurorights_envelope_id: String,
}

/// Current content shard of one page.
#[derive(Clone, Debug)]
pub struct ContentPageShard {
    pub shard_id: String,
    pub page_path: String,
    pub hex_stamp: String,
    pub k_score: u32,
    pub e_score: u32,
    pub r_score: u32,
}

/// Governance totem: the last audited configuration.
#[derive(Clone, Debug)]
pub struct GovernanceTotem {
    pub shard_id: String,
    pub config_hash: String,
    pub last_audit_ms: i64,
}

/// A requested page mutation.
#[derive(Clone, Debug)]
pub struct PageMutationRequest {
    pub actor_did: String,
    pub actor_role: WebRole,
    pub page_path: String,
    pub new_content_markdown: String,
}

/// The firewall's verdict on a mutation.
#[derive(Clone, Debug)]
pub struct PageMutationResponse {
    pub accepted: bool,
    pub reason: String,
}

/// Rights firewall port: the embedding application supplies the validator
/// that judges each page mutation against the governance configuration.
pub trait NeurorightsFirewall {
    fn validate_page_mutation(
        &self,
        cfg: &WebsiteGovernanceConfig,
        shard: &ContentPageShard,
        req: &PageMutationRequest,
    ) -> PageMutationResponse;
}

/// Router holding the firewall and the site configuration.
pub struct Router<F: NeurorightsFirewall> {
    pub firewall: F,
    pub cfg: WebsiteGovernanceConfig,
}

impl<F: NeurorightsFirewall> Router<F> {
    /// Hand the mutation to the firewall under this site's configuration;
    /// the verdict is whatever the supplied firewall decides.
    pub fn handle_mutation(
        &self,
        current_shard: &ContentPageShard,
        req: &PageMutationRequest,
    ) -> PageMutationResponse {
        self.firewall.validate_page_mutation(&self.cfg, current_shard, req)
    }
}

} // verus!
