//! Tests for the risk-of-harm predictor and guard, the evolution audit
//! records, and the decision roles.

use paycomp::evolution::{
    DecisionKind, DecisionRole, EvolutionAuditRecord, EvolutionId, HostDid, RoHBound30, UpgradeDecision,
    UpgradeId,
};
use paycomp::roh::{
    guarded_decision, predict_roh, roh_from_biokarma, EvidenceBundle, RoHGuardedHostState,
    MIN_EVIDENCE_POINTS,
};
use paycomp::roles::{
    has_host_veto, host_self_veto, neurorights_authorize, safety_approve, HostSelf,
    HostSelfDecider, NeurorightsBoard, NeurorightsDecider, SafetyBoard, SafetyDecider,
};

#[test]
fn roh_bound_accepts_up_to_the_limit() {
    let b = RoHBound30::new(300).expect("0.300 is within the bound");
    assert_eq!(b.get(), 300);
    assert!(RoHBound30::new(0).is_some());
    assert!(RoHBound30::new(301).is_none());
}

#[test]
fn predict_roh_exact_values() {
    // 0.100 + 0.20*0.500 + 0.15*0.200 - 0.10*0.300 = 0.200
    let state = RoHGuardedHostState::new(100, 300, 200, 500);
    assert_eq!(predict_roh(&state), 200);

    // Negative raw values clamp to zero: 0.0 + 0 + 0 - 0.10*1.0 < 0.
    let state = RoHGuardedHostState::new(0, 1000, 0, 0);
    assert_eq!(predict_roh(&state), 0);

    // Values past 1.0 clamp to one: 0.950 + 0.20*0.900 = 1.130.
    let state = RoHGuardedHostState::new(950, 0, 0, 900);
    assert_eq!(predict_roh(&state), 1000);
}

#[test]
fn guarded_decision_approves_only_bounded_risk() {
    let (d, b) = guarded_decision(250);
    match d {
        UpgradeDecision::Approved(bound) => assert_eq!(bound.get(), 250),
        _ => panic!("risk 0.250 must be approved"),
    }
    assert_eq!(b.expect("bound present").get(), 250);

    let (d, b) = guarded_decision(301);
    assert_eq!(d, UpgradeDecision::Denied);
    assert!(b.is_none());
}

#[test]
fn evidence_bundle_sufficiency() {
    assert_eq!(MIN_EVIDENCE_POINTS, 10);
    let short = EvidenceBundle {
        biokarma_points: vec![500; 9],
        device_hour_points: vec![500; 10],
        eco_impact_points: vec![500; 10],
    };
    assert!(!short.is_sufficient());
    assert!(roh_from_biokarma(&short).is_none());

    let full = EvidenceBundle {
        biokarma_points: vec![500; 10],
        device_hour_points: vec![500; 10],
        eco_impact_points: vec![500; 10],
    };
    assert!(full.is_sufficient());
}

#[test]
fn roh_from_biokarma_exact_value() {
    // Averages: bio 0.800, device 0.400, eco 0.600.
    // 0.4*(1-0.8) + 0.3*0.4 + 0.3*(1-0.6) = 0.08 + 0.12 + 0.12 = 0.320.
    let bundle = EvidenceBundle {
        biokarma_points: vec![800; 10],
        device_hour_points: vec![400; 10],
        eco_impact_points: vec![600; 10],
    };
    assert_eq!(roh_from_biokarma(&bundle), Some(320));

    // Truncated means: ten points summing to 8004 average to 800.
    let mut uneven = vec![800; 10];
    uneven[0] = 804;
    let bundle = EvidenceBundle {
        biokarma_points: uneven,
        device_hour_points: vec![400; 10],
        eco_impact_points: vec![600; 10],
    };
    assert_eq!(roh_from_biokarma(&bundle), Some(320));
}

#[test]
fn audit_record_appends_hashes_in_order() {
    let mut record = EvolutionAuditRecord::new(
        HostDid("did:host:a".to_string()),
        UpgradeId("upgrade-1".to_string()),
        EvolutionId("evo-1".to_string()),
        123,
    );
    assert!(record.decision_hashes.is_empty());
    record.append_decision_hash("aa11".to_string());
    record.append_decision_hash("bb22".to_string());
    assert_eq!(record.decision_hashes, vec!["aa11".to_string(), "bb22".to_string()]);
    assert_eq!(record.created_ms, 123);
    assert_eq!(record.host_did, HostDid("did:host:a".to_string()));
}

#[test]
fn boards_fill_roles_and_kinds() {
    let host = HostDid("did:host:a".to_string());
    let upgrade = UpgradeId("upgrade-1".to_string());
    let evo = EvolutionId("evo-1".to_string());
    let bound = RoHBound30::new(120);

    let r = NeurorightsBoard.decide_neurorights(
        &host, &upgrade, &evo, Some(100), Some(120), bound, "ok", "fine", 5,
    );
    assert_eq!(r.role, DecisionRole::NeurorightsDecider);
    assert_eq!(r.kind, DecisionKind::Authorize);
    assert_eq!(r.host_did, host);
    assert_eq!(r.roh_before, Some(100));
    assert_eq!(r.roh_after, Some(120));
    assert_eq!(r.reason_code, "ok");
    assert_eq!(r.notes, "fine");
    assert_eq!(r.timestamp_ms, 5);

    let r = SafetyBoard.decide_safety(
        &host, &upgrade, &evo, Some(100), Some(120), bound, "ok", "fine", 6,
    );
    assert_eq!(r.role, DecisionRole::SafetyDecider);
    assert_eq!(r.kind, DecisionKind::Approve);

    let r = HostSelf.self_veto(&host, &upgrade, &evo, Some(100), "no", "veto", 7);
    assert_eq!(r.role, DecisionRole::HostSelf);
    assert_eq!(r.kind, DecisionKind::Reject);
    assert_eq!(r.roh_after, Some(100));
    assert!(r.roh_bound.is_none());
}

#[test]
fn record_ids_are_fresh() {
    let host = HostDid("did:host:a".to_string());
    let upgrade = UpgradeId("upgrade-1".to_string());
    let evo = EvolutionId("evo-1".to_string());
    let a = host_self_veto(&host, &upgrade, &evo, None, "no", "", 1);
    let b = host_self_veto(&host, &upgrade, &evo, None, "no", "", 1);
    assert_ne!(a.record_id, b.record_id);
}

#[test]
fn host_veto_detection() {
    let host = HostDid("did:host:a".to_string());
    let upgrade = UpgradeId("upgrade-1".to_string());
    let evo = EvolutionId("evo-1".to_string());
    let bound = RoHBound30::new(120);

    let approvals = vec![
        neurorights_authorize(&host, &upgrade, &evo, Some(100), Some(120), bound, "ok", "", 1),
        safety_approve(&host, &upgrade, &evo, Some(100), Some(120), bound, "ok", "", 2),
    ];
    assert!(!has_host_veto(&approvals));
    assert!(!has_host_veto(&[]));

    let mut with_veto = approvals;
    with_veto.push(host_self_veto(&host, &upgrade, &evo, Some(100), "no", "", 3));
    assert!(has_host_veto(&with_veto));
}
