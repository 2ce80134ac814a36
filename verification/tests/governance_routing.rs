//! Tests for the governance router and the profile's signal-update hooks.

use paycomp::consent::{AugFingerprintShard, NeuroState};
use paycomp::governance::{
    ContentPageShard, NeurorightsFirewall, PageMutationRequest, PageMutationResponse, Router,
    WebRole, WebsiteGovernanceConfig,
};

/// A firewall that rejects any page whose risk already sits above the
/// configured ceiling, unless a governance admin asks.
struct RiskCeilingFirewall;

impl NeurorightsFirewall for RiskCeilingFirewall {
    fn validate_page_mutation(
        &self,
        cfg: &WebsiteGovernanceConfig,
        shard: &ContentPageShard,
        req: &PageMutationRequest,
    ) -> PageMutationResponse {
        if shard.r_score > cfg.max_risk_per_page && req.actor_role != WebRole::GovernanceAdmin {
            PageMutationResponse { accepted: false, reason: "risk ceiling".to_string() }
        } else {
            PageMutationResponse { accepted: true, reason: "ok".to_string() }
        }
    }
}

fn page(r_score: u32) -> ContentPageShard {
    ContentPageShard {
        shard_id: "content.page.1".to_string(),
        page_path: "/welcome".to_string(),
        hex_stamp: "9a".to_string(),
        k_score: 700,
        e_score: 600,
        r_score,
    }
}

fn mutation(role: WebRole) -> PageMutationRequest {
    PageMutationRequest {
        actor_did: "did:web:author".to_string(),
        actor_role: role,
        page_path: "/welcome".to_string(),
        new_content_markdown: "# hello".to_string(),
    }
}

#[test]
fn router_forwards_to_firewall() {
    let router = Router {
        firewall: RiskCeilingFirewall,
        cfg: WebsiteGovernanceConfig {
            shard_id: "governance.site.1".to_string(),
            max_risk_per_page: 300,
            neurorights_envelope_id: "envelope-1".to_string(),
        },
    };

    let verdict = router.handle_mutation(&page(200), &mutation(WebRole::ContentAuthor));
    assert!(verdict.accepted);

    let verdict = router.handle_mutation(&page(400), &mutation(WebRole::ContentAuthor));
    assert!(!verdict.accepted);
    assert_eq!(verdict.reason, "risk ceiling");

    let verdict = router.handle_mutation(&page(400), &mutation(WebRole::GovernanceAdmin));
    assert!(verdict.accepted);
}

#[test]
fn update_neuro_state_replaces_snapshot_only() {
    let mut shard = AugFingerprintShard::new("did:host:c".to_string(), 0);
    let snapshot = NeuroState {
        svalue: 450,
        loadvalue: 200,
        smin: 400,
        smax: 600,
        loadmax: 500,
        last_update: 12,
    };
    shard.update_neuro_state(snapshot);
    assert_eq!(shard.neuro_state, snapshot);
    assert_eq!(shard.wallet_did, "did:host:c");
    assert_eq!(shard.stable_since, None);
}
