//! The admission guard: an ordered, short-circuiting chain of gates over a
//! consent profile and a payment request, producing a decision, a reason
//! code, and an optional audit record.
//!
//! Gate order (first failing gate wins; essential-service requests bypass the
//! gates marked so):
//! 1. refresh the rate window;
//! 2. sticky suspension (bypassed by essential requests);
//! 3. prompt rate cap (bypassed);
//! 4. payment rate cap (bypassed);
//! 5. amount cap (bypassed);
//! 6. signal corridor — a non-essential violation sets the sticky suspension
//!    flag, an essential one defers;
//! 7. minimum-stability timer;
//! 8. external confirmation — anything other than `Confirmed` is treated as
//!    not approved;
//! 9. conservative risk-score policy;
//! 10. all gates passed: count the payment and the prompt, allow.

use vstd::prelude::*;
use crate::consent::AugFingerprintShard;

verus! {

/// Result of a consent evaluation.
#[derive(Debug, Clone, Copy, PartialEq, Eq, Structural)]
pub enum ConsentDecision {
    Allow,
    Deny,
    Defer,
}

/// Reason codes for logging and analytics, one per terminal gate outcome.
///
/// `StabilityTimeInsufficient` marks the missing-confirmation outcome (gate
/// 8): the subject held a stable state long enough, but the companion process
/// did not positively confirm, so the stability time spent is not sufficient
/// grounds to proceed on its own.  `StabilityNotYetEstablished` marks the
/// stability-timer outcome (gate 7).
#[derive(Debug, Clone, Copy, PartialEq, Eq, Structural)]
pub enum ConsentReason {
    Approved,
    ConsentSuspended,
    PromptRateExceeded,
    PaymentRateExceeded,
    AmountOverLimit,
    StateOutsideCorridor,
    EssentialStateUnstable,
    StabilityTimeInsufficient,
    StabilityNotYetEstablished,
    RiskScoresTooHigh,
}

/// External consent macro-state as reported by the companion process.
#[derive(Debug, Clone, Copy, PartialEq, Eq, Structural)]
pub enum AiConsentState {
    Confirmed,
    Deny,
    Suspended,
    Unknown,
}

/// Payment request as seen by the guard.  Ephemeral, one per call.
#[derive(Debug, Clone)]
pub struct PaymentRequest {
    pub merchant_id: String,
    pub region_id: String,
    pub amount_mills: u64,
    pub is_essential_service: bool,
    /// Caller-supplied current time, in seconds.
    pub now: u64,
}

/// Immutable audit record of one consent decision: the decision, the reason,
/// and the signal values at decision time.
#[derive(Debug, Clone)]
pub struct ConsentAuditRecord {
    pub wallet_did: String,
    pub merchant_id: String,
    pub amount_mills: u64,
    pub decision: ConsentDecision,
    pub reason: ConsentReason,
    pub timestamp: u64,
    pub s_value: u32,
    pub load_value: u32,
    pub ai_consent_state: AiConsentState,
}

/// The risk-score gate fires: the profile's policy mode enforces a ceiling
/// and some static risk score exceeds it.
pub open spec fn spec_risk_blocked(r: AugFingerprintShard) -> bool {
    match r.ai_consent_policy.spec_risk_ceiling() {
        Some(c) => r.r_fraud > c || r.r_privacy > c || r.r_tracking > c,
        None => false,
    }
}

/// Saturating increment of an hourly counter.
pub open spec fn sat_inc(x: u32) -> u32 {
    if x == u32::MAX {
        u32::MAX
    } else {
        (x + 1) as u32
    }
}

/// Core guard enforcing the internal-state corridor consent model.
pub struct AugFingerprintGuard;

impl AugFingerprintGuard {
    /// Spec-level description of the whole evaluation: the decision, the
    /// reason code, and the updated profile, over the window-refreshed
    /// profile.  Leaving the corridor clears the stability baseline; when
    /// the clock runs backward, the stability check restarts the baseline
    /// at the request time rather than measuring a negative stay; and the
    /// call that establishes the baseline does not itself count as stable.
    pub open spec fn spec_evaluate(
        shard: AugFingerprintShard,
        req: PaymentRequest,
        ai_state: AiConsentState,
    ) -> (ConsentDecision, ConsentReason, AugFingerprintShard) {
        let r = shard.spec_refreshed(req.now);
        let essential = req.is_essential_service;
        if r.consent_suspended && !essential {
            (ConsentDecision::Deny, ConsentReason::ConsentSuspended, r)
        } else if r.prompts_last_hour >= r.max_prompts_per_hour && !essential {
            (ConsentDecision::Deny, ConsentReason::PromptRateExceeded, r)
        } else if r.payments_last_hour >= r.max_payments_per_hour && !essential {
            (ConsentDecision::Deny, ConsentReason::PaymentRateExceeded, r)
        } else if req.amount_mills > r.max_auto_amount_mills && !essential {
            (ConsentDecision::Deny, ConsentReason::AmountOverLimit, r)
        } else if !r.spec_within_corridor() {
            if !essential {
                (
                    ConsentDecision::Deny,
                    ConsentReason::StateOutsideCorridor,
                    AugFingerprintShard { consent_suspended: true, stable_since: None, ..r },
                )
            } else {
                (
                    ConsentDecision::Defer,
                    ConsentReason::EssentialStateUnstable,
                    AugFingerprintShard { stable_since: None, ..r },
                )
            }
        } else {
            match r.stable_since {
                None => (
                    ConsentDecision::Defer,
                    ConsentReason::StabilityNotYetEstablished,
                    AugFingerprintShard { stable_since: Some(req.now), ..r },
                ),
                Some(t0) => if req.now < t0 {
                    (
                        ConsentDecision::Defer,
                        ConsentReason::StabilityNotYetEstablished,
                        AugFingerprintShard { stable_since: Some(req.now), ..r },
                    )
                } else if req.now - t0 < r.min_stability_time {
                    (ConsentDecision::Defer, ConsentReason::StabilityNotYetEstablished, r)
                } else if ai_state != AiConsentState::Confirmed {
                    if essential {
                        (ConsentDecision::Defer, ConsentReason::StabilityTimeInsufficient, r)
                    } else {
                        (ConsentDecision::Deny, ConsentReason::StabilityTimeInsufficient, r)
                    }
                } else if spec_risk_blocked(r) {
                    (ConsentDecision::Deny, ConsentReason::RiskScoresTooHigh, r)
                } else {
                    (
                        ConsentDecision::Allow,
                        ConsentReason::Approved,
                        AugFingerprintShard {
                            payments_last_hour: sat_inc(r.payments_last_hour),
                            prompts_last_hour: sat_inc(r.prompts_last_hour),
                            ..r
                        },
                    )
                },
            }
        }
    }

    /// The audit record that one evaluation yields when auditing is enabled.
    pub open spec fn spec_audit(
        shard: AugFingerprintShard,
        req: PaymentRequest,
        ai_state: AiConsentState,
    ) -> ConsentAuditRecord {
        ConsentAuditRecord {
            wallet_did: shard.wallet_did,
            merchant_id: req.merchant_id,
            amount_mills: req.amount_mills,
            decision: Self::spec_evaluate(shard, req, ai_state).0,
            reason: Self::spec_evaluate(shard, req, ai_state).1,
            timestamp: req.now,
            s_value: shard.neuro_state.svalue,
            load_value: shard.neuro_state.loadvalue,
            ai_consent_state: ai_state,
        }
    }

    /// Evaluate whether the payment should be allowed, denied, or deferred,
    /// updating the profile's runtime state as a side effect.
    ///
    /// The result and the new profile state are exactly those of
    /// `spec_evaluate`; an audit record is produced if and only if auditing
    /// is enabled on the profile.
    pub fn evaluate_payment(
        shard: &mut AugFingerprintShard,
        request: &PaymentRequest,
        ai_state: AiConsentState,
    ) -> (res: (ConsentDecision, ConsentReason, Option<ConsentAuditRecord>))
        ensures
            res.0 == Self::spec_evaluate(*old(shard), *request, ai_state).0,
            res.1 == Self::spec_evaluate(*old(shard), *request, ai_state).1,
            *final(shard) == Self::spec_evaluate(*old(shard), *request, ai_state).2,
            res.2 == if old(shard).consent_audit_log_enabled {
                Some(Self::spec_audit(*old(shard), *request, ai_state))
            } else {
                None::<ConsentAuditRecord>
            },
    {
        shard.reset_counters_if_needed(request.now);

        // Hard suspend: only essential services pass while consent is
        // suspended.
        if shard.consent_suspended && !request.is_essential_service {
            return Self::deny_with_audit(shard, request, ai_state, ConsentReason::ConsentSuspended);
        }

        // Prompt / payment rate caps.
        if shard.prompts_last_hour >= shard.max_prompts_per_hour && !request.is_essential_service {
            return Self::deny_with_audit(
                shard,
                request,
                ai_state,
                ConsentReason::PromptRateExceeded,
            );
        }

        if shard.payments_last_hour >= shard.max_payments_per_hour && !request.is_essential_service
        {
            return Self::deny_with_audit(
                shard,
                request,
                ai_state,
                ConsentReason::PaymentRateExceeded,
            );
        }

        // Amount corridor: never auto-approve above max_auto_amount_mills.
        if request.amount_mills > shard.max_auto_amount_mills && !request.is_essential_service {
            return Self::deny_with_audit(shard, request, ai_state, ConsentReason::AmountOverLimit);
        }

        // Signal corridor.
        let ns = shard.neuro_state;
        let within_s_corridor = ns.svalue >= ns.smin && ns.svalue <= ns.smax;
        let within_load_band = ns.loadvalue <= ns.loadmax
            && ns.loadvalue <= shard.max_cognitive_load;

        if !within_s_corridor || !within_load_band {
            // Leaving the corridor resets the stability baseline.
            shard.stable_since = None;
            if !request.is_essential_service {
                shard.consent_suspended = true;
                return Self::deny_with_audit(
                    shard,
                    request,
                    ai_state,
                    ConsentReason::StateOutsideCorridor,
                );
            } else {
                // Essential service: defer until the state stabilizes rather
                // than forcing through an unsafe corridor.
                return Self::defer_with_audit(
                    shard,
                    request,
                    ai_state,
                    ConsentReason::EssentialStateUnstable,
                );
            }
        }

        // Stability timer: the signal must stay in corridor long enough.
        let now = request.now;
        match shard.stable_since {
            None => {
                // This call establishes the baseline and never itself counts
                // as stable.
                shard.stable_since = Some(now);
                return Self::defer_with_audit(
                    shard,
                    request,
                    ai_state,
                    ConsentReason::StabilityNotYetEstablished,
                );
            }
            Some(t0) => {
                if now < t0 {
                    // Backward clock: restart the baseline instead of
                    // computing a negative duration.
                    shard.stable_since = Some(now);
                    return Self::defer_with_audit(
                        shard,
                        request,
                        ai_state,
                        ConsentReason::StabilityNotYetEstablished,
                    );
                }
                if now - t0 < shard.min_stability_time {
                    return Self::defer_with_audit(
                        shard,
                        request,
                        ai_state,
                        ConsentReason::StabilityNotYetEstablished,
                    );
                }
            }
        }

        // External confirmation gate: silence is never approval.
        if ai_state != AiConsentState::Confirmed {
            if request.is_essential_service {
                return Self::defer_with_audit(
                    shard,
                    request,
                    ai_state,
                    ConsentReason::StabilityTimeInsufficient,
                );
            } else {
                return Self::deny_with_audit(
                    shard,
                    request,
                    ai_state,
                    ConsentReason::StabilityTimeInsufficient,
                );
            }
        }

        // Policy gate: block when a risk score exceeds the mode's ceiling.
        if let Some(ceiling) = shard.ai_consent_policy.risk_ceiling() {
            if shard.r_fraud > ceiling || shard.r_privacy > ceiling
                || shard.r_tracking > ceiling {
                return Self::deny_with_audit(
                    shard,
                    request,
                    ai_state,
                    ConsentReason::RiskScoresTooHigh,
                );
            }
        }

        // All gates passed: count and allow.
        shard.payments_last_hour = shard.payments_last_hour.saturating_add(1);
        shard.prompts_last_hour = shard.prompts_last_hour.saturating_add(1);

        let audit = if shard.consent_audit_log_enabled {
            Some(ConsentAuditRecord {
                wallet_did: shard.wallet_did.clone(),
                merchant_id: request.merchant_id.clone(),
                amount_mills: request.amount_mills,
                decision: ConsentDecision::Allow,
                reason: ConsentReason::Approved,
                timestamp: request.now,
                s_value: shard.neuro_state.svalue,
                load_value: shard.neuro_state.loadvalue,
                ai_consent_state: ai_state,
            })
        } else {
            None
        };

        (ConsentDecision::Allow, ConsentReason::Approved, audit)
    }

    /// Build the denial outcome with its audit record (if auditing is on).
    fn deny_with_audit(
        shard: &AugFingerprintShard,
        request: &PaymentRequest,
        ai_state: AiConsentState,
        reason: ConsentReason,
    ) -> (res: (ConsentDecision, ConsentReason, Option<ConsentAuditRecord>))
        ensures
            res.0 == ConsentDecision::Deny,
            res.1 == reason,
            res.2 == if shard.consent_audit_log_enabled {
                Some(ConsentAuditRecord {
                    wallet_did: shard.wallet_did,
                    merchant_id: request.merchant_id,
                    amount_mills: request.amount_mills,
                    decision: ConsentDecision::Deny,
                    reason: reason,
                    timestamp: request.now,
                    s_value: shard.neuro_state.svalue,
                    load_value: shard.neuro_state.loadvalue,
                    ai_consent_state: ai_state,
                })
            } else {
                None::<ConsentAuditRecord>
            },
    {
        let audit = if shard.consent_audit_log_enabled {
            Some(ConsentAuditRecord {
                wallet_did: shard.wallet_did.clone(),
                merchant_id: request.merchant_id.clone(),
                amount_mills: request.amount_mills,
                decision: ConsentDecision::Deny,
                reason,
                timestamp: request.now,
                s_value: shard.neuro_state.svalue,
                load_value: shard.neuro_state.loadvalue,
                ai_consent_state: ai_state,
            })
        } else {
            None
        };
        (ConsentDecision::Deny, reason, audit)
    }

    /// Build the deferral outcome with its audit record (if auditing is on).
    fn defer_with_audit(
        shard: &AugFingerprintShard,
        request: &PaymentRequest,
        ai_state: AiConsentState,
        reason: ConsentReason,
    ) -> (res: (ConsentDecision, ConsentReason, Option<ConsentAuditRecord>))
        ensures
            res.0 == ConsentDecision::Defer,
            res.1 == reason,
            res.2 == if shard.consent_audit_log_enabled {
                Some(ConsentAuditRecord {
                    wallet_did: shard.wallet_did,
                    merchant_id: request.merchant_id,
                    amount_mills: request.amount_mills,
                    decision: ConsentDecision::Defer,
                    reason: reason,
                    timestamp: request.now,
                    s_value: shard.neuro_state.svalue,
                    load_value: shard.neuro_state.loadvalue,
                    ai_consent_state: ai_state,
                })
            } else {
                None::<ConsentAuditRecord>
            },
    {
        let audit = if shard.consent_audit_log_enabled {
            Some(ConsentAuditRecord {
                wallet_did: shard.wallet_did.clone(),
                merchant_id: request.merchant_id.clone(),
                amount_mills: request.amount_mills,
                decision: ConsentDecision::Defer,
                reason,
                timestamp: request.now,
                s_value: shard.neuro_state.svalue,
                load_value: shard.neuro_state.loadvalue,
                ai_consent_state: ai_state,
            })
        } else {
            None
        };
        (ConsentDecision::Defer, reason, audit)
    }
}

/// Gates 2 through 6 of the chain, over the window-refreshed profile `r`:
/// the request is not blocked by suspension, either rate cap, or the amount
/// cap, and the signal sits inside the corridor.
pub open spec fn spec_admission_gates_open(r: AugFingerprintShard, req: PaymentRequest) -> bool {
    &&& !(r.consent_suspended && !req.is_essential_service)
    &&& !(r.prompts_last_hour >= r.max_prompts_per_hour && !req.is_essential_service)
    &&& !(r.payments_last_hour >= r.max_payments_per_hour && !req.is_essential_service)
    &&& !(req.amount_mills > r.max_auto_amount_mills && !req.is_essential_service)
    &&& r.spec_within_corridor()
}

/// Fail-closed: without a positive `Confirmed` from the companion process,
/// no request is ever allowed, whatever the profile state.
pub proof fn lemma_fail_closed(
    shard: AugFingerprintShard,
    req: PaymentRequest,
    ai_state: AiConsentState,
)
    requires
        ai_state != AiConsentState::Confirmed,
    ensures
        AugFingerprintGuard::spec_evaluate(shard, req, ai_state).0 != ConsentDecision::Allow,
{
}

/// Sticky suspension: no evaluation ever clears the suspension flag; while
/// it is set, every non-essential request is denied with `ConsentSuspended`;
/// and a `StateOutsideCorridor` denial is exactly what sets it.
pub proof fn lemma_sticky_suspension(
    shard: AugFingerprintShard,
    req: PaymentRequest,
    ai_state: AiConsentState,
)
    ensures
        shard.consent_suspended ==> AugFingerprintGuard::spec_evaluate(
            shard,
            req,
            ai_state,
        ).2.consent_suspended,
        shard.consent_suspended && !req.is_essential_service ==> {
            let out = AugFingerprintGuard::spec_evaluate(shard, req, ai_state);
            out.0 == ConsentDecision::Deny && out.1 == ConsentReason::ConsentSuspended
        },
        AugFingerprintGuard::spec_evaluate(shard, req, ai_state).1
            == ConsentReason::StateOutsideCorridor ==> AugFingerprintGuard::spec_evaluate(
            shard,
            req,
            ai_state,
        ).2.consent_suspended,
{
}

/// Stability hysteresis: with every earlier gate open and a stability
/// baseline `t0` already on record, a stay strictly shorter than
/// `min_stability_time` defers with `StabilityNotYetEstablished` and keeps
/// the baseline, while a stay of at least `min_stability_time` passes the
/// stability gate.
pub proof fn lemma_stability_threshold(
    shard: AugFingerprintShard,
    req: PaymentRequest,
    ai_state: AiConsentState,
    t0: u64,
)
    requires
        spec_admission_gates_open(shard.spec_refreshed(req.now), req),
        shard.spec_refreshed(req.now).stable_since == Some(t0),
        t0 <= req.now,
    ensures
        req.now - t0 < shard.spec_refreshed(req.now).min_stability_time ==> {
            let out = AugFingerprintGuard::spec_evaluate(shard, req, ai_state);
            &&& out.0 == ConsentDecision::Defer
            &&& out.1 == ConsentReason::StabilityNotYetEstablished
            &&& out.2.stable_since == Some(t0)
        },
        req.now - t0 >= shard.spec_refreshed(req.now).min_stability_time
            ==> AugFingerprintGuard::spec_evaluate(shard, req, ai_state).1
            != ConsentReason::StabilityNotYetEstablished,
{
}

/// Rate caps are exact: a non-essential request that reaches the payment-cap
/// gate with the cap already met is denied with `PaymentRateExceeded`; an
/// expired window restores both counters to zero; and every allowed request
/// counts one payment and one prompt (saturating).
pub proof fn lemma_payment_rate_cap(
    shard: AugFingerprintShard,
    req: PaymentRequest,
    ai_state: AiConsentState,
)
    ensures
        ({
            let r = shard.spec_refreshed(req.now);
            &&& !req.is_essential_service
            &&& !r.consent_suspended
            &&& r.prompts_last_hour < r.max_prompts_per_hour
            &&& r.payments_last_hour >= r.max_payments_per_hour
        }) ==> {
            let out = AugFingerprintGuard::spec_evaluate(shard, req, ai_state);
            out.0 == ConsentDecision::Deny && out.1 == ConsentReason::PaymentRateExceeded
        },
        shard.spec_window_expired(req.now) ==> {
            let r = shard.spec_refreshed(req.now);
            r.payments_last_hour == 0 && r.prompts_last_hour == 0
        },
        AugFingerprintGuard::spec_evaluate(shard, req, ai_state).0 == ConsentDecision::Allow
            ==> {
            let r = shard.spec_refreshed(req.now);
            let out = AugFingerprintGuard::spec_evaluate(shard, req, ai_state);
            &&& out.2.payments_last_hour == sat_inc(r.payments_last_hour)
            &&& out.2.prompts_last_hour == sat_inc(r.prompts_last_hour)
        },
{
}

/// Essential bypass: an essential request is never blocked by the
/// suspension, rate-cap, or amount gates; an unsafe corridor makes it defer
/// (never deny) with `EssentialStateUnstable`; and it never sets the
/// suspension flag.
pub proof fn lemma_essential_bypass(
    shard: AugFingerprintShard,
    req: PaymentRequest,
    ai_state: AiConsentState,
)
    requires
        req.is_essential_service,
    ensures
        ({
            let out = AugFingerprintGuard::spec_evaluate(shard, req, ai_state);
            &&& out.1 != ConsentReason::ConsentSuspended
            &&& out.1 != ConsentReason::PromptRateExceeded
            &&& out.1 != ConsentReason::PaymentRateExceeded
            &&& out.1 != ConsentReason::AmountOverLimit
            &&& out.1 != ConsentReason::StateOutsideCorridor
        }),
        !shard.spec_refreshed(req.now).spec_within_corridor() ==> {
            let out = AugFingerprintGuard::spec_evaluate(shard, req, ai_state);
            out.0 == ConsentDecision::Defer && out.1 == ConsentReason::EssentialStateUnstable
        },
        AugFingerprintGuard::spec_evaluate(shard, req, ai_state).2.consent_suspended
            == shard.consent_suspended,
{
}

} // verus!
