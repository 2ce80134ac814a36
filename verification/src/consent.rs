//! Per-subject consent profile: the static corridor / cap / policy
//! configuration together with the mutable runtime state (live signal
//! snapshot, stability baseline, sticky suspension flag, hourly counters)
//! that the admission guard reads and updates.

use vstd::prelude::*;
use crate::WINDOW_SECS;

verus! {

/// Knowledge / eco-impact / risk-of-harm scores, each a fixed-point
/// thousandth of the unit interval.
#[derive(Debug, Clone, Copy, PartialEq, Eq, Structural)]
pub struct KerScore {
    pub knowledge: u32,
    pub ecoimpact: u32,
    pub riskofharm: u32,
}

/// Snapshot of the already-normalized internal state signal as the companion
/// process last reported it.  `svalue` is the primary consent-state scalar,
/// `loadvalue` the cognitive load, both in thousandths; `smin ..= smax` is the
/// safe corridor for `svalue` and `loadmax` the load ceiling inside it.
#[derive(Debug, Clone, Copy, PartialEq, Eq, Structural)]
pub struct NeuroState {
    pub svalue: u32,
    pub loadvalue: u32,
    pub smin: u32,
    pub smax: u32,
    pub loadmax: u32,
    /// Time this snapshot was produced, in seconds.
    pub last_update: u64,
}

/// Policy mode for the risk-score gate.
#[derive(Debug, Clone, Copy, PartialEq, Eq, Structural)]
pub enum AiConsentPolicy {
    Conservative,
    Balanced,
}

impl AiConsentPolicy {
    /// The ceiling (in thousandths) that no static risk score may exceed
    /// under this policy mode, or `None` where the mode enforces no ceiling.
    pub open spec fn spec_risk_ceiling(self) -> Option<u32> {
        match self {
            AiConsentPolicy::Conservative => Some(500),
            AiConsentPolicy::Balanced => None,
        }
    }

    /// The risk ceiling this mode enforces, if any.
    pub fn risk_ceiling(self) -> (r: Option<u32>)
        ensures
            r == self.spec_risk_ceiling(),
    {
        match self {
            AiConsentPolicy::Conservative => Some(500),
            AiConsentPolicy::Balanced => None,
        }
    }
}

/// How the subject interacts with the wallet.
#[derive(Debug, Clone, Copy, PartialEq, Eq, Structural)]
pub enum ControlMode {
    InternalBiophysical,
    ExternalSwitch,
    Voice,
    Mixed,
}

/// One subject's wallet profile: static configuration plus the runtime fields
/// that `evaluate_payment` mutates.  The statics never change after
/// enrollment; the guard is the sole mutator of the runtime fields, except
/// for `update_neuro_state` (signal source) and `clear_suspension` (external
/// governance action).
#[derive(Debug, Clone)]
pub struct AugFingerprintShard {
    // Identity / interface
    pub wallet_did: String,
    pub interface_type: String,
    pub control_mode: ControlMode,
    pub assist_mode: bool,
    pub direct_user_gesture: bool,
    pub consent_channel: String,
    pub quantified_learning: bool,

    // Accessibility and neuro-latency profile
    pub speech_reliable: bool,
    pub mobility_profile: String,
    pub oculus_cortex_calibrated: bool,
    pub latency_profile: String,
    /// Safe load ceiling, in thousandths.
    pub max_cognitive_load: u32,

    // Spending corridors (mills: 1 = 0.001 USD)
    pub max_auto_amount_mills: u64,
    pub max_daily_spend_mills: u64,
    pub max_payments_per_hour: u32,
    pub max_prompts_per_hour: u32,

    // Consent parameters
    pub learning_mode: String,
    pub ai_consent_policy: AiConsentPolicy,
    /// Minimum continuous time inside the corridor, in seconds.
    pub min_stability_time: u64,
    pub consent_suspended: bool,

    // Dynamic state
    pub neuro_state: NeuroState,
    /// Start of the current continuous in-corridor stay, if one is tracked.
    pub stable_since: Option<u64>,
    pub payments_last_hour: u32,
    pub prompts_last_hour: u32,
    /// Start of the current fixed-boundary rate window, in seconds.
    pub last_reset_window: u64,

    // Risk / eco scoring (thousandths)
    pub ker_score: KerScore,
    pub r_privacy: u32,
    pub r_fraud: u32,
    pub r_tracking: u32,
    pub e_accessibility: u32,

    // Audit
    pub consent_audit_log_enabled: bool,
}

impl AugFingerprintShard {
    /// Profile invariant: the corridor bounds are ordered.
    pub open spec fn wf(self) -> bool {
        self.neuro_state.smin <= self.neuro_state.smax
    }

    /// The live signal sits inside the safe corridor: `svalue` within
    /// `[smin, smax]` and `loadvalue` at or under both load ceilings.
    pub open spec fn spec_within_corridor(self) -> bool {
        &&& self.neuro_state.smin <= self.neuro_state.svalue
        &&& self.neuro_state.svalue <= self.neuro_state.smax
        &&& self.neuro_state.loadvalue <= self.neuro_state.loadmax
        &&& self.neuro_state.loadvalue <= self.max_cognitive_load
    }

    /// A full window length has elapsed since the window started.  A clock
    /// that moved backward never expires the window.
    pub open spec fn spec_window_expired(self, now: u64) -> bool {
        now >= self.last_reset_window + WINDOW_SECS
    }

    /// The profile after the rate window has been refreshed at `now`: both
    /// counters reset to zero and the window restarted if and only if the
    /// window had expired, everything else untouched.
    pub open spec fn spec_refreshed(self, now: u64) -> AugFingerprintShard {
        if self.spec_window_expired(now) {
            AugFingerprintShard {
                payments_last_hour: 0,
                prompts_last_hour: 0,
                last_reset_window: now,
                ..self
            }
        } else {
            self
        }
    }

    /// Default enrollment profile for an implanted-NFC, internally controlled
    /// wallet under the conservative policy.
    pub fn new(wallet_did: String, now: u64) -> (r: AugFingerprintShard)
        ensures
            r.wallet_did == wallet_did,
            r.interface_type@ == "implantednfc"@,
            r.control_mode == ControlMode::InternalBiophysical,
            r.assist_mode,
            !r.direct_user_gesture,
            r.consent_channel@ == "AIinferredstateonly"@,
            r.quantified_learning,
            !r.speech_reliable,
            r.mobility_profile@ == "limitedprecisionlowfrequency"@,
            !r.oculus_cortex_calibrated,
            r.latency_profile@ == "spiky"@,
            r.max_cognitive_load == 400,
            r.max_auto_amount_mills == 50_000,
            r.max_daily_spend_mills == 200_000,
            r.max_payments_per_hour == 6,
            r.max_prompts_per_hour == 10,
            r.learning_mode@ == "quantifiedlaneswitching"@,
            r.ai_consent_policy == AiConsentPolicy::Conservative,
            r.min_stability_time == 5,
            !r.consent_suspended,
            r.neuro_state == (NeuroState {
                svalue: 0,
                loadvalue: 0,
                smin: 400,
                smax: 600,
                loadmax: 500,
                last_update: now,
            }),
            r.stable_since == None::<u64>,
            r.payments_last_hour == 0,
            r.prompts_last_hour == 0,
            r.last_reset_window == now,
            r.ker_score == (KerScore { knowledge: 900, ecoimpact: 900, riskofharm: 150 }),
            r.r_privacy == 200,
            r.r_fraud == 200,
            r.r_tracking == 200,
            r.e_accessibility == 900,
            r.consent_audit_log_enabled,
            r.wf(),
    {
        AugFingerprintShard {
            wallet_did,
            interface_type: "implantednfc".to_owned(),
            control_mode: ControlMode::InternalBiophysical,
            assist_mode: true,
            direct_user_gesture: false,
            consent_channel: "AIinferredstateonly".to_owned(),
            quantified_learning: true,

            speech_reliable: false,
            mobility_profile: "limitedprecisionlowfrequency".to_owned(),
            oculus_cortex_calibrated: false,
            latency_profile: "spiky".to_owned(),
            max_cognitive_load: 400,

            max_auto_amount_mills: 50_000,
            max_daily_spend_mills: 200_000,
            max_payments_per_hour: 6,
            max_prompts_per_hour: 10,

            learning_mode: "quantifiedlaneswitching".to_owned(),
            ai_consent_policy: AiConsentPolicy::Conservative,
            min_stability_time: 5,
            consent_suspended: false,

            neuro_state: NeuroState {
                svalue: 0,
                loadvalue: 0,
                smin: 400,
                smax: 600,
                loadmax: 500,
                last_update: now,
            },
            stable_since: None,
            payments_last_hour: 0,
            prompts_last_hour: 0,
            last_reset_window: now,

            ker_score: KerScore { knowledge: 900, ecoimpact: 900, riskofharm: 150 },
            r_privacy: 200,
            r_fraud: 200,
            r_tracking: 200,
            e_accessibility: 900,

            consent_audit_log_enabled: true,
        }
    }

    /// Called by the companion process whenever a new internal state snapshot
    /// has been computed.  The snapshot must respect the corridor-bound
    /// ordering invariant.
    pub fn update_neuro_state(&mut self, state: NeuroState)
        requires
            state.smin <= state.smax,
        ensures
            *final(self) == (AugFingerprintShard { neuro_state: state, ..*old(self) }),
            final(self).wf(),
    {
        self.neuro_state = state;
    }

    /// Refresh the fixed-boundary hourly window: when a full window has
    /// elapsed, zero both counters and restart the window at `now`.  This is
    /// a boundary reset, not a sliding window.
    pub fn reset_counters_if_needed(&mut self, now: u64)
        ensures
            *final(self) == old(self).spec_refreshed(now),
    {
        if now >= self.last_reset_window && now - self.last_reset_window >= WINDOW_SECS {
            self.payments_last_hour = 0;
            self.prompts_last_hour = 0;
            self.last_reset_window = now;
        }
    }

    /// Externally invoked governance action: lift a sticky suspension.  No
    /// code path inside the guard itself ever clears the flag.
    pub fn clear_suspension(&mut self)
        ensures
            *final(self) == (AugFingerprintShard { consent_suspended: false, ..*old(self) }),
    {
        self.consent_suspended = false;
    }
}

} // verus!
