//! End-to-end scenarios for the admission gate chain.

use paycomp::consent::{AugFingerprintShard, NeuroState};
use paycomp::guard::{AiConsentState, AugFingerprintGuard, ConsentDecision, ConsentReason, PaymentRequest};

fn profile_at(now: u64) -> AugFingerprintShard {
    // s_min=0.4, s_max=0.6, load_max=0.5, max_cognitive_load=0.4,
    // min_stability_duration=5s, caps 6 payments / 10 prompts per hour.
    let mut shard = AugFingerprintShard::new("did:host:alpha".to_string(), now);
    shard.max_cognitive_load = 400;
    shard.neuro_state = NeuroState {
        svalue: 500,
        loadvalue: 300,
        smin: 400,
        smax: 600,
        loadmax: 500,
        last_update: now,
    };
    shard
}

fn request_at(now: u64) -> PaymentRequest {
    PaymentRequest {
        merchant_id: "merchant-7".to_string(),
        region_id: "region-1".to_string(),
        amount_mills: 10_000,
        is_essential_service: false,
        now,
    }
}

#[test]
fn stability_scenario_establish_hold_allow() {
    let mut shard = profile_at(0);

    // t=0: baseline set, not yet stable.
    let (d, c, _) = AugFingerprintGuard::evaluate_payment(&mut shard, &request_at(0), AiConsentState::Confirmed);
    assert_eq!(d, ConsentDecision::Defer);
    assert_eq!(c, ConsentReason::StabilityNotYetEstablished);
    assert_eq!(shard.stable_since, Some(0));

    // t=4 (min_stability_duration - 1): still not stable, baseline kept.
    let (d, c, _) = AugFingerprintGuard::evaluate_payment(&mut shard, &request_at(4), AiConsentState::Confirmed);
    assert_eq!(d, ConsentDecision::Defer);
    assert_eq!(c, ConsentReason::StabilityNotYetEstablished);
    assert_eq!(shard.stable_since, Some(0));

    // t=5 (exactly min_stability_duration): allowed.
    let (d, c, audit) = AugFingerprintGuard::evaluate_payment(&mut shard, &request_at(5), AiConsentState::Confirmed);
    assert_eq!(d, ConsentDecision::Allow);
    assert_eq!(c, ConsentReason::Approved);
    assert_eq!(shard.payments_last_hour, 1);
    assert_eq!(shard.prompts_last_hour, 1);
    let audit = audit.expect("auditing is enabled by default");
    assert_eq!(audit.decision, ConsentDecision::Allow);
    assert_eq!(audit.reason, ConsentReason::Approved);
    assert_eq!(audit.wallet_did, "did:host:alpha");
    assert_eq!(audit.merchant_id, "merchant-7");
    assert_eq!(audit.amount_mills, 10_000);
    assert_eq!(audit.timestamp, 5);
    assert_eq!(audit.s_value, 500);
    assert_eq!(audit.load_value, 300);
    assert_eq!(audit.ai_consent_state, AiConsentState::Confirmed);
}

#[test]
fn corridor_violation_sets_sticky_suspension() {
    let mut shard = profile_at(0);
    // Signal jumps above s_max on a non-essential request.
    shard.neuro_state.svalue = 700;

    let (d, c, _) = AugFingerprintGuard::evaluate_payment(&mut shard, &request_at(0), AiConsentState::Confirmed);
    assert_eq!(d, ConsentDecision::Deny);
    assert_eq!(c, ConsentReason::StateOutsideCorridor);
    assert!(shard.consent_suspended);
    assert_eq!(shard.stable_since, None);

    // Every subsequent non-essential request is denied as suspended, even
    // with the signal back in corridor.
    shard.neuro_state.svalue = 500;
    for t in 1..4 {
        let (d, c, _) = AugFingerprintGuard::evaluate_payment(&mut shard, &request_at(t), AiConsentState::Confirmed);
        assert_eq!(d, ConsentDecision::Deny);
        assert_eq!(c, ConsentReason::ConsentSuspended);
        assert!(shard.consent_suspended);
    }

    // External clear, then the chain runs again.
    shard.clear_suspension();
    let (d, c, _) = AugFingerprintGuard::evaluate_payment(&mut shard, &request_at(10), AiConsentState::Confirmed);
    assert_eq!(d, ConsentDecision::Defer);
    assert_eq!(c, ConsentReason::StabilityNotYetEstablished);
}

#[test]
fn payment_rate_cap_is_exact_and_window_resets() {
    let mut shard = profile_at(0);
    shard.stable_since = Some(0);

    // 6 allowed payments fill the hourly cap.
    for k in 0..6 {
        let (d, _, _) = AugFingerprintGuard::evaluate_payment(
            &mut shard,
            &request_at(100 + k),
            AiConsentState::Confirmed,
        );
        assert_eq!(d, ConsentDecision::Allow);
    }
    assert_eq!(shard.payments_last_hour, 6);

    // The 7th within the same window is denied.
    let (d, c, _) = AugFingerprintGuard::evaluate_payment(&mut shard, &request_at(110), AiConsentState::Confirmed);
    assert_eq!(d, ConsentDecision::Deny);
    assert_eq!(c, ConsentReason::PaymentRateExceeded);

    // After the window boundary passes, the counters reset and the next
    // request may pass.
    let (d, c, _) = AugFingerprintGuard::evaluate_payment(&mut shard, &request_at(3600), AiConsentState::Confirmed);
    assert_eq!(d, ConsentDecision::Allow);
    assert_eq!(c, ConsentReason::Approved);
    assert_eq!(shard.payments_last_hour, 1);
    assert_eq!(shard.last_reset_window, 3600);
}

#[test]
fn prompt_rate_cap_denies() {
    let mut shard = profile_at(0);
    shard.prompts_last_hour = 10;
    let (d, c, _) = AugFingerprintGuard::evaluate_payment(&mut shard, &request_at(0), AiConsentState::Confirmed);
    assert_eq!(d, ConsentDecision::Deny);
    assert_eq!(c, ConsentReason::PromptRateExceeded);
}

#[test]
fn amount_over_limit_denies_non_essential() {
    let mut shard = profile_at(0);
    shard.stable_since = Some(0);
    let mut req = request_at(10);
    req.amount_mills = 50_001;
    let (d, c, _) = AugFingerprintGuard::evaluate_payment(&mut shard, &req, AiConsentState::Confirmed);
    assert_eq!(d, ConsentDecision::Deny);
    assert_eq!(c, ConsentReason::AmountOverLimit);
}

#[test]
fn essential_bypasses_amount_but_not_corridor() {
    let mut shard = profile_at(0);
    shard.stable_since = Some(0);
    let mut req = request_at(10);
    req.is_essential_service = true;
    req.amount_mills = 1_000_000;

    // Over the cap, but essential: the amount gate does not fire.
    let (d, c, _) = AugFingerprintGuard::evaluate_payment(&mut shard, &req, AiConsentState::Confirmed);
    assert_eq!(d, ConsentDecision::Allow);
    assert_eq!(c, ConsentReason::Approved);

    // Essential in an unsafe corridor: defer, never deny, and no
    // suspension.
    shard.neuro_state.loadvalue = 900;
    let (d, c, _) = AugFingerprintGuard::evaluate_payment(&mut shard, &req, AiConsentState::Confirmed);
    assert_eq!(d, ConsentDecision::Defer);
    assert_eq!(c, ConsentReason::EssentialStateUnstable);
    assert!(!shard.consent_suspended);
}

#[test]
fn unconfirmed_state_never_allows() {
    for ai in [AiConsentState::Deny, AiConsentState::Suspended, AiConsentState::Unknown] {
        let mut shard = profile_at(0);
        shard.stable_since = Some(0);

        // Non-essential: denied.
        let (d, c, _) = AugFingerprintGuard::evaluate_payment(&mut shard, &request_at(10), ai);
        assert_eq!(d, ConsentDecision::Deny);
        assert_eq!(c, ConsentReason::StabilityTimeInsufficient);

        // Essential: deferred, still never allowed.
        let mut req = request_at(11);
        req.is_essential_service = true;
        let (d, c, _) = AugFingerprintGuard::evaluate_payment(&mut shard, &req, ai);
        assert_eq!(d, ConsentDecision::Defer);
        assert_eq!(c, ConsentReason::StabilityTimeInsufficient);
    }
}

#[test]
fn conservative_policy_blocks_high_risk() {
    let mut shard = profile_at(0);
    shard.stable_since = Some(0);
    shard.r_fraud = 600;
    let (d, c, _) = AugFingerprintGuard::evaluate_payment(&mut shard, &request_at(10), AiConsentState::Confirmed);
    assert_eq!(d, ConsentDecision::Deny);
    assert_eq!(c, ConsentReason::RiskScoresTooHigh);
}

#[test]
fn balanced_policy_ignores_risk_scores() {
    let mut shard = profile_at(0);
    shard.stable_since = Some(0);
    shard.ai_consent_policy = paycomp::consent::AiConsentPolicy::Balanced;
    shard.r_fraud = 900;
    shard.r_privacy = 900;
    shard.r_tracking = 900;
    let (d, c, _) = AugFingerprintGuard::evaluate_payment(&mut shard, &request_at(10), AiConsentState::Confirmed);
    assert_eq!(d, ConsentDecision::Allow);
    assert_eq!(c, ConsentReason::Approved);
}

#[test]
fn backward_clock_restarts_stability_baseline() {
    let mut shard = profile_at(0);
    shard.stable_since = Some(100);
    let (d, c, _) = AugFingerprintGuard::evaluate_payment(&mut shard, &request_at(40), AiConsentState::Confirmed);
    assert_eq!(d, ConsentDecision::Defer);
    assert_eq!(c, ConsentReason::StabilityNotYetEstablished);
    assert_eq!(shard.stable_since, Some(40));
}

#[test]
fn disabled_audit_yields_no_record() {
    let mut shard = profile_at(0);
    shard.consent_audit_log_enabled = false;
    let (_, _, audit) = AugFingerprintGuard::evaluate_payment(&mut shard, &request_at(0), AiConsentState::Confirmed);
    assert!(audit.is_none());
}

#[test]
fn deny_audit_snapshot_carries_reason_and_signal() {
    let mut shard = profile_at(0);
    shard.neuro_state.svalue = 700;
    let (_, _, audit) = AugFingerprintGuard::evaluate_payment(&mut shard, &request_at(3), AiConsentState::Unknown);
    let audit = audit.expect("auditing enabled");
    assert_eq!(audit.decision, ConsentDecision::Deny);
    assert_eq!(audit.reason, ConsentReason::StateOutsideCorridor);
    assert_eq!(audit.s_value, 700);
    assert_eq!(audit.load_value, 300);
    assert_eq!(audit.ai_consent_state, AiConsentState::Unknown);
    assert_eq!(audit.timestamp, 3);
}

#[test]
fn default_profile_defaults() {
    let shard = AugFingerprintShard::new("did:host:beta".to_string(), 77);
    assert_eq!(shard.wallet_did, "did:host:beta");
    assert_eq!(shard.interface_type, "implantednfc");
    assert_eq!(shard.max_auto_amount_mills, 50_000);
    assert_eq!(shard.max_daily_spend_mills, 200_000);
    assert_eq!(shard.max_payments_per_hour, 6);
    assert_eq!(shard.max_prompts_per_hour, 10);
    assert_eq!(shard.min_stability_time, 5);
    assert_eq!(shard.max_cognitive_load, 400);
    assert_eq!(shard.neuro_state.smin, 400);
    assert_eq!(shard.neuro_state.smax, 600);
    assert_eq!(shard.neuro_state.loadmax, 500);
    assert_eq!(shard.neuro_state.last_update, 77);
    assert_eq!(shard.last_reset_window, 77);
    assert!(!shard.consent_suspended);
    assert_eq!(shard.stable_since, None);
    assert!(shard.consent_audit_log_enabled);
}
