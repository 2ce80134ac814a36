//! Guard over nanoswarm-funded debits: the nanoswarm never settles with
//! merchants directly, blood-token spend stays local-only, and no operation
//! may push the lifeforce level below its safe envelope.

use vstd::prelude::*;

verus! {

/// Abstracted lifeforce envelope for a cybernetic host.  This is not energy
/// metering; it encodes sustainable-integrity bands.  Levels are fixed-point
/// thousandths of the unit interval.
#[derive(Debug, Clone)]
pub struct LifeforceEnvelope {
    /// Normalized overall lifeforce level.
    pub lifeforce_level: u32,
    /// Minimum safe lifeforce reserve that must never be crossed.
    pub lifeforce_floor: u32,
    /// Additional safety margin to avoid band snapping.
    pub lifeforce_curve_margin: u32,
    /// Current lifeforce band.
    pub lifeforce_band: LifeforceBand,
}

#[derive(Debug, Clone, Copy, PartialEq, Eq, Structural)]
pub enum LifeforceBand {
    Stable,
    Fragile,
    Recovering,
}

/// Local-only blood-token balance controlled by the nanoswarm.
#[derive(Debug, Clone)]
pub struct BloodTokenLedger {
    /// 1 unit = 0.001 USD.
    pub microusd3_units: u64,
}

/// Classification of a requested debit.
#[derive(Debug, Clone, Copy, PartialEq, Eq, Structural)]
pub enum NanoDebitClass {
    /// Local nanoswarm housekeeping, sensor upkeep.
    HostMaintenance,
    /// Local detox / regeneration nano-work.
    LocalEcoAction,
    /// Direct merchant settlement (forbidden).
    MerchantPayment,
}

/// Request for a nanoswarm-funded debit.
#[derive(Debug, Clone)]
pub struct NanoDebitRequest {
    pub class: NanoDebitClass,
    pub amount_microusd3: u64,
    /// Estimated lifeforce impact, in thousandths.
    pub estimated_lifeforce_delta: u32,
    /// Must be true for any nanoswarm spend.
    pub local_only: bool,
}

/// Result of applying the guard.
#[derive(Debug, Clone)]
pub struct NanoDebitDecision {
    pub approved: bool,
    pub reason: String,
    pub new_lifeforce_level: u32,
    pub new_blood_tokens: u64,
    pub hextrace: String,
    pub decided_at: u64,
}

/// Policy-level lifeforce profile, loaded by an external configuration
/// collaborator.
#[derive(Debug, Clone)]
pub struct LifeforceProfile {
    pub lifeforce_level: u32,
    pub lifeforce_floor: u32,
    pub lifeforce_curve_margin: u32,
    pub lifeforce_band: LifeforceBand,
}

/// Live lifeforce-related balances.
#[derive(Debug, Clone)]
pub struct LifeforceState {
    pub bloodtoken_balance_microusd3: u64,
}

/// Policy invariants, validated at load time by the external configuration
/// collaborator.
#[derive(Debug, Clone)]
pub struct LifeforcePolicy {
    pub nano_local_only_required: bool,
    pub nanodebit_hostmaintenance_allowed: bool,
    pub nanodebit_localeco_allowed: bool,
    /// Band-specific caps on the lifeforce delta, in thousandths.
    pub max_lifeforce_delta_stable: u32,
    pub max_lifeforce_delta_fragile: u32,
    pub max_lifeforce_delta_recovering: u32,
}

/// Guard that enforces: the nanoswarm never talks directly to merchant
/// processors, lifeforce bands are never crossed or snapped, and blood
/// tokens are local-only and host-controlled.
pub struct CyberNanoPaymentGuard;

impl CyberNanoPaymentGuard {
    /// A fragile-band debit: the host's band is not `Stable` and the
    /// estimated lifeforce delta exceeds the prudence cap of 0.05.
    pub open spec fn spec_fragile_blocked(env: LifeforceEnvelope, req: NanoDebitRequest) -> bool {
        &&& (env.lifeforce_band == LifeforceBand::Fragile || env.lifeforce_band
            == LifeforceBand::Recovering)
        &&& req.estimated_lifeforce_delta > 50
    }

    /// The projected lifeforce level would fall below floor plus margin.
    pub open spec fn spec_floor_violated(env: LifeforceEnvelope, req: NanoDebitRequest) -> bool {
        env.lifeforce_level < req.estimated_lifeforce_delta + env.lifeforce_floor
            + env.lifeforce_curve_margin
    }

    /// Exactly when `eval` approves: not a merchant settlement, local-only,
    /// covered by the blood-token balance, the projected level stays inside
    /// the safe envelope, and no fragile-band prudence block applies.
    pub open spec fn spec_eval_approves(
        env: LifeforceEnvelope,
        ledger: BloodTokenLedger,
        req: NanoDebitRequest,
    ) -> bool {
        &&& req.class != NanoDebitClass::MerchantPayment
        &&& req.local_only
        &&& req.amount_microusd3 <= ledger.microusd3_units
        &&& !Self::spec_floor_violated(env, req)
        &&& !Self::spec_fragile_blocked(env, req)
    }

    /// The hex trace that `eval` stamps on its decision, one per gate.
    pub open spec fn spec_eval_trace(
        env: LifeforceEnvelope,
        ledger: BloodTokenLedger,
        req: NanoDebitRequest,
    ) -> Seq<char> {
        if req.class == NanoDebitClass::MerchantPayment {
            "0xCNGUARD_NO_MERCHANT_MIX"@
        } else if !req.local_only {
            "0xCNGUARD_LOCAL_ONLY_REQUIRED"@
        } else if req.amount_microusd3 > ledger.microusd3_units {
            "0xCNGUARD_BALANCE_INSUFFICIENT"@
        } else if Self::spec_floor_violated(env, req) {
            "0xCNGUARD_LIFEFORCE_PROTECT"@
        } else if Self::spec_fragile_blocked(env, req) {
            "0xCNGUARD_FRAGILE_BAND"@
        } else {
            "0xCNGUARD_APPROVED_LOCAL_SAFE"@
        }
    }

    /// Evaluate a nanoswarm debit against the lifeforce envelope and the
    /// blood-token ledger.  Approves exactly under `spec_eval_approves`; on
    /// approval the projected level and balance are returned, otherwise both
    /// are unchanged.
    pub fn eval(
        lifeforce: &LifeforceEnvelope,
        blood_ledger: &BloodTokenLedger,
        req: &NanoDebitRequest,
        now: u64,
    ) -> (r: NanoDebitDecision)
        ensures
            r.approved == Self::spec_eval_approves(*lifeforce, *blood_ledger, *req),
            r.hextrace@ == Self::spec_eval_trace(*lifeforce, *blood_ledger, *req),
            r.new_lifeforce_level == if r.approved {
                (lifeforce.lifeforce_level - req.estimated_lifeforce_delta) as u32
            } else {
                lifeforce.lifeforce_level
            },
            r.new_blood_tokens == if r.approved {
                (blood_ledger.microusd3_units - req.amount_microusd3) as u64
            } else {
                blood_ledger.microusd3_units
            },
            r.decided_at == now,
    {
        // 1. Hard block any attempt to use the nanoswarm for direct merchant
        // settlement.
        if matches!(req.class, NanoDebitClass::MerchantPayment) {
            return NanoDebitDecision {
                approved: false,
                reason:
                    "Direct merchant settlement via nanoswarm is forbidden; route through host wallet and standard payment rails."
                    .to_owned(),
                new_lifeforce_level: lifeforce.lifeforce_level,
                new_blood_tokens: blood_ledger.microusd3_units,
                hextrace: "0xCNGUARD_NO_MERCHANT_MIX".to_owned(),
                decided_at: now,
            };
        }

        // 2. Enforce the local-only constraint for all nanoswarm-funded
        // operations.
        if !req.local_only {
            return NanoDebitDecision {
                approved: false,
                reason:
                    "Nanoswarm blood-token spend must be local-only; remote or networked targets are not allowed."
                    .to_owned(),
                new_lifeforce_level: lifeforce.lifeforce_level,
                new_blood_tokens: blood_ledger.microusd3_units,
                hextrace: "0xCNGUARD_LOCAL_ONLY_REQUIRED".to_owned(),
                decided_at: now,
            };
        }

        // 3. Ensure a sufficient blood-token balance.
        if req.amount_microusd3 > blood_ledger.microusd3_units {
            return NanoDebitDecision {
                approved: false,
                reason: "Insufficient blood-token balance for nanoswarm operation.".to_owned(),
                new_lifeforce_level: lifeforce.lifeforce_level,
                new_blood_tokens: blood_ledger.microusd3_units,
                hextrace: "0xCNGUARD_BALANCE_INSUFFICIENT".to_owned(),
                decided_at: now,
            };
        }

        // 4. Lifeforce protection: the projected level must stay above floor
        // plus margin.
        if (lifeforce.lifeforce_level as u64) < (req.estimated_lifeforce_delta as u64)
            + (lifeforce.lifeforce_floor as u64) + (lifeforce.lifeforce_curve_margin as u64) {
            return NanoDebitDecision {
                approved: false,
                reason:
                    "Requested nanoswarm operation would deplete lifeforce below the safe envelope (floor plus margin)."
                    .to_owned(),
                new_lifeforce_level: lifeforce.lifeforce_level,
                new_blood_tokens: blood_ledger.microusd3_units,
                hextrace: "0xCNGUARD_LIFEFORCE_PROTECT".to_owned(),
                decided_at: now,
            };
        }

        // 5. Additional prudence when the band is Fragile or Recovering.
        if matches!(lifeforce.lifeforce_band, LifeforceBand::Fragile | LifeforceBand::Recovering)
            && req.estimated_lifeforce_delta > 50 {
            return NanoDebitDecision {
                approved: false,
                reason:
                    "In a Fragile or Recovering lifeforce band, nanoswarm operations with a high lifeforce delta are forbidden."
                    .to_owned(),
                new_lifeforce_level: lifeforce.lifeforce_level,
                new_blood_tokens: blood_ledger.microusd3_units,
                hextrace: "0xCNGUARD_FRAGILE_BAND".to_owned(),
                decided_at: now,
            };
        }

        // 6. Approve the safe, local, non-merchant nanoswarm debit.
        NanoDebitDecision {
            approved: true,
            reason:
                "Nanoswarm local-only debit approved within the lifeforce envelope; merchant settlement must still go through the host wallet."
                .to_owned(),
            new_lifeforce_level: lifeforce.lifeforce_level - req.estimated_lifeforce_delta,
            new_blood_tokens: blood_ledger.microusd3_units - req.amount_microusd3,
            hextrace: "0xCNGUARD_APPROVED_LOCAL_SAFE".to_owned(),
            decided_at: now,
        }
    }

    /// The band-specific cap on the lifeforce delta under `policy`.
    pub open spec fn spec_band_delta_cap(
        profile: LifeforceProfile,
        policy: LifeforcePolicy,
    ) -> u32 {
        match profile.lifeforce_band {
            LifeforceBand::Stable => policy.max_lifeforce_delta_stable,
            LifeforceBand::Fragile => policy.max_lifeforce_delta_fragile,
            LifeforceBand::Recovering => policy.max_lifeforce_delta_recovering,
        }
    }

    /// The requested class is switched off by the policy.
    pub open spec fn spec_class_forbidden(
        policy: LifeforcePolicy,
        req: NanoDebitRequest,
    ) -> bool {
        ||| (req.class == NanoDebitClass::HostMaintenance
            && !policy.nanodebit_hostmaintenance_allowed)
        ||| (req.class == NanoDebitClass::LocalEcoAction && !policy.nanodebit_localeco_allowed)
    }

    /// The projected level under the policy profile would fall below floor
    /// plus margin.
    pub open spec fn spec_policy_floor_violated(
        profile: LifeforceProfile,
        req: NanoDebitRequest,
    ) -> bool {
        profile.lifeforce_level < req.estimated_lifeforce_delta + profile.lifeforce_floor
            + profile.lifeforce_curve_margin
    }

    /// Exactly when `eval_with_policy` approves.
    pub open spec fn spec_policy_approves(
        profile: LifeforceProfile,
        state: LifeforceState,
        policy: LifeforcePolicy,
        req: NanoDebitRequest,
    ) -> bool {
        &&& req.class != NanoDebitClass::MerchantPayment
        &&& !(!req.local_only && policy.nano_local_only_required)
        &&& !Self::spec_class_forbidden(policy, req)
        &&& req.estimated_lifeforce_delta <= Self::spec_band_delta_cap(profile, policy)
        &&& !Self::spec_policy_floor_violated(profile, req)
        &&& req.amount_microusd3 <= state.bloodtoken_balance_microusd3
    }

    /// The hex trace that `eval_with_policy` stamps on its decision.
    pub open spec fn spec_policy_trace(
        profile: LifeforceProfile,
        state: LifeforceState,
        policy: LifeforcePolicy,
        req: NanoDebitRequest,
    ) -> Seq<char> {
        if req.class == NanoDebitClass::MerchantPayment {
            "0xCNGUARD_ALN_MERCHANT_FORBIDDEN"@
        } else if !req.local_only && policy.nano_local_only_required {
            "0xCNGUARD_ALN_LOCAL_ONLY"@
        } else if req.class == NanoDebitClass::HostMaintenance
            && !policy.nanodebit_hostmaintenance_allowed {
            "0xCNGUARD_CLASS_FORBIDDEN_HOST"@
        } else if req.class == NanoDebitClass::LocalEcoAction
            && !policy.nanodebit_localeco_allowed {
            "0xCNGUARD_CLASS_FORBIDDEN_ECO"@
        } else if req.estimated_lifeforce_delta > Self::spec_band_delta_cap(profile, policy) {
            "0xCNGUARD_DELTA_CAP"@
        } else if Self::spec_policy_floor_violated(profile, req) {
            "0xCNGUARD_FLOOR_MARGIN"@
        } else if req.amount_microusd3 > state.bloodtoken_balance_microusd3 {
            "0xCNGUARD_BALANCE_INSUFFICIENT"@
        } else {
            "0xCNGUARD_APPROVED_LOCAL_SAFE"@
        }
    }

    /// Evaluate a nanoswarm debit under an externally loaded policy: the
    /// merchant and local-only invariants, per-class switches, band-specific
    /// delta caps, the floor-plus-margin envelope, and the blood-token
    /// balance, in that order.
    pub fn eval_with_policy(
        profile: &LifeforceProfile,
        state: &LifeforceState,
        policy: &LifeforcePolicy,
        req: &NanoDebitRequest,
        now: u64,
    ) -> (r: NanoDebitDecision)
        ensures
            r.approved == Self::spec_policy_approves(*profile, *state, *policy, *req),
            r.hextrace@ == Self::spec_policy_trace(*profile, *state, *policy, *req),
            r.new_lifeforce_level == if r.approved {
                (profile.lifeforce_level - req.estimated_lifeforce_delta) as u32
            } else {
                profile.lifeforce_level
            },
            r.new_blood_tokens == if r.approved {
                (state.bloodtoken_balance_microusd3 - req.amount_microusd3) as u64
            } else {
                state.bloodtoken_balance_microusd3
            },
            r.decided_at == now,
    {
        // 1. Policy invariants: no merchant settlement, local-only where
        // required.
        if matches!(req.class, NanoDebitClass::MerchantPayment) {
            return NanoDebitDecision {
                approved: false,
                reason: "Nanoswarm to merchant payment is forbidden by lifeforce policy."
                    .to_owned(),
                new_lifeforce_level: profile.lifeforce_level,
                new_blood_tokens: state.bloodtoken_balance_microusd3,
                hextrace: "0xCNGUARD_ALN_MERCHANT_FORBIDDEN".to_owned(),
                decided_at: now,
            };
        }
        if !req.local_only && policy.nano_local_only_required {
            return NanoDebitDecision {
                approved: false,
                reason: "Non-local nanoswarm debit violates the local-only policy requirement."
                    .to_owned(),
                new_lifeforce_level: profile.lifeforce_level,
                new_blood_tokens: state.bloodtoken_balance_microusd3,
                hextrace: "0xCNGUARD_ALN_LOCAL_ONLY".to_owned(),
                decided_at: now,
            };
        }

        // 2. Check whether this debit class is allowed at all.
        if matches!(req.class, NanoDebitClass::HostMaintenance)
            && !policy.nanodebit_hostmaintenance_allowed {
            return NanoDebitDecision {
                approved: false,
                reason: "HostMaintenance nanoswarm debits are disabled by policy.".to_owned(),
                new_lifeforce_level: profile.lifeforce_level,
                new_blood_tokens: state.bloodtoken_balance_microusd3,
                hextrace: "0xCNGUARD_CLASS_FORBIDDEN_HOST".to_owned(),
                decided_at: now,
            };
        }
        if matches!(req.class, NanoDebitClass::LocalEcoAction)
            && !policy.nanodebit_localeco_allowed {
            return NanoDebitDecision {
                approved: false,
                reason: "LocalEcoAction nanoswarm debits are disabled by policy.".to_owned(),
                new_lifeforce_level: profile.lifeforce_level,
                new_blood_tokens: state.bloodtoken_balance_microusd3,
                hextrace: "0xCNGUARD_CLASS_FORBIDDEN_ECO".to_owned(),
                decided_at: now,
            };
        }

        // 3. Band-specific lifeforce delta caps from the policy.
        let max_delta: u32 = match profile.lifeforce_band {
            LifeforceBand::Stable => policy.max_lifeforce_delta_stable,
            LifeforceBand::Fragile => policy.max_lifeforce_delta_fragile,
            LifeforceBand::Recovering => policy.max_lifeforce_delta_recovering,
        };
        if req.estimated_lifeforce_delta > max_delta {
            return NanoDebitDecision {
                approved: false,
                reason:
                    "Requested nanoswarm operation exceeds the band-specific lifeforce delta cap."
                    .to_owned(),
                new_lifeforce_level: profile.lifeforce_level,
                new_blood_tokens: state.bloodtoken_balance_microusd3,
                hextrace: "0xCNGUARD_DELTA_CAP".to_owned(),
                decided_at: now,
            };
        }

        // 4. Floor-plus-margin (no snapping) check.
        if (profile.lifeforce_level as u64) < (req.estimated_lifeforce_delta as u64)
            + (profile.lifeforce_floor as u64) + (profile.lifeforce_curve_margin as u64) {
            return NanoDebitDecision {
                approved: false,
                reason:
                    "Projected lifeforce falls below floor plus margin; nanoswarm debit denied."
                    .to_owned(),
                new_lifeforce_level: profile.lifeforce_level,
                new_blood_tokens: state.bloodtoken_balance_microusd3,
                hextrace: "0xCNGUARD_FLOOR_MARGIN".to_owned(),
                decided_at: now,
            };
        }

        // 5. Balance check, then approval.
        if req.amount_microusd3 > state.bloodtoken_balance_microusd3 {
            return NanoDebitDecision {
                approved: false,
                reason: "Insufficient blood-token balance for nanoswarm operation.".to_owned(),
                new_lifeforce_level: profile.lifeforce_level,
                new_blood_tokens: state.bloodtoken_balance_microusd3,
                hextrace: "0xCNGUARD_BALANCE_INSUFFICIENT".to_owned(),
                decided_at: now,
            };
        }

        NanoDebitDecision {
            approved: true,
            reason:
                "Nanoswarm local-only debit approved within the lifeforce envelope; merchant settlement must still go through the host wallet."
                .to_owned(),
            new_lifeforce_level: profile.lifeforce_level - req.estimated_lifeforce_delta,
            new_blood_tokens: state.bloodtoken_balance_microusd3 - req.amount_microusd3,
            hextrace: "0xCNGUARD_APPROVED_LOCAL_SAFE".to_owned(),
            decided_at: now,
        }
    }
}

/// Lifeforce protection: whatever `eval` decides, it never reports a
/// lifeforce level below floor plus margin after an approval, and it never
/// touches the level otherwise.
pub proof fn lemma_lifeforce_envelope_respected(
    env: LifeforceEnvelope,
    ledger: BloodTokenLedger,
    req: NanoDebitRequest,
)
    ensures
        CyberNanoPaymentGuard::spec_eval_approves(env, ledger, req) ==> env.lifeforce_level
            - req.estimated_lifeforce_delta >= env.lifeforce_floor + env.lifeforce_curve_margin,
{
}

} // verus!
