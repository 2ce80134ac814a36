//! Record types for the upgrade-evolution decision spine: risk-of-harm
//! bounds, decision records and their append-only audit trail, and the
//! blood-token reserve records.
//!
//! Risk-of-harm values are fixed-point thousandths of the unit interval.

use vstd::prelude::*;

verus! {

/// Residual risk-of-harm, in thousandths of the unit interval.
pub type RoH = u32;

/// Record ids are freshly drawn random UUIDs.
#[verifier::external_type_specification]
#[verifier::external_body]
pub struct ExUuid(uuid::Uuid);

/// Relies on uuid::Uuid::new_v4: draws a fresh random (version 4) UUID from
/// the operating system's generator; nothing is promised of its value.
pub assume_specification[ uuid::Uuid::new_v4 ]() -> uuid::Uuid;

/// Relies on the Copy-derived uuid::Uuid::clone: the clone is the same id.
/// The derived `Clone` of the record types below calls it.
pub assume_specification[ <uuid::Uuid as Clone>::clone ](u: &uuid::Uuid) -> (r: uuid::Uuid)
    ensures
        r == *u,
;

/// Strongly-typed bound: a risk-of-harm of at most 0.30, run-time checked.
#[derive(Copy, Clone, Debug, PartialEq, Eq, Structural)]
pub struct RoHBound30(RoH);

impl RoHBound30 {
    /// The largest admissible risk-of-harm, in thousandths.
    pub const MAX: RoH = 300;

    /// The wrapped value never exceeds the bound.
    #[verifier::type_invariant]
    spec fn inv(self) -> bool {
        self.0 <= 300
    }

    /// The bounded value.
    pub closed spec fn spec_get(self) -> RoH {
        self.0
    }

    /// Wrap a risk-of-harm value, refusing anything above the bound.
    pub fn new(value: RoH) -> (r: Option<RoHBound30>)
        ensures
            value <= 300 ==> (r matches Some(b) && b.spec_get() == value),
            value > 300 ==> r is None,
    {
        if value <= Self::MAX {
            Some(RoHBound30(value))
        } else {
            None
        }
    }

    pub fn get(self) -> (r: RoH)
        ensures
            r == self.spec_get(),
            r <= 300,
    {
        proof {
            use_type_invariant(&self);
        }
        self.0
    }
}

/// High-level decision kinds across the evolution graph.
#[derive(Clone, Copy, Debug, PartialEq, Eq, Structural)]
pub enum DecisionKind {
    Propose,
    Authorize,
    Approve,
    Reject,
    Defer,
    Escalate,
}

/// Fine-grained upgrade decision outcome.
#[derive(Clone, Copy, Debug, PartialEq, Eq, Structural)]
pub enum UpgradeDecision {
    Approved(RoHBound30),
    Authorized(RoHBound30),
    Rejected,
    Escalated,
    Deferred,
    /// Guard-level denial, no state change.
    Denied,
}

/// DID for a host (person or agent).
#[derive(Clone, Debug, PartialEq, Eq, Hash)]
pub struct HostDid(pub String);

/// Upgrade / protocol / model identifier.
#[derive(Clone, Debug, PartialEq, Eq, Hash)]
pub struct UpgradeId(pub String);

/// Evolution step / graph node identifier.
#[derive(Clone, Debug, PartialEq, Eq, Hash)]
pub struct EvolutionId(pub String);

/// Role identifiers in the decision spine.
#[derive(Clone, Copy, Debug, PartialEq, Eq, Hash, Structural)]
pub enum DecisionRole {
    HostSelf,
    NeurorightsDecider,
    SafetyDecider,
    GovernanceDecider,
}

/// Core decision record.
#[derive(Clone, Debug)]
pub struct DecisionRecord {
    pub record_id: uuid::Uuid,
    pub host_did: HostDid,
    pub upgrade_id: UpgradeId,
    pub evolution_id: EvolutionId,
    pub role: DecisionRole,
    pub kind: DecisionKind,
    pub timestamp_ms: i64,
    pub roh_before: Option<RoH>,
    pub roh_after: Option<RoH>,
    pub roh_bound: Option<RoHBound30>,
    pub reason_code: String,
    pub notes: String,
}

/// Append-only audit trail of decision hashes for one evolution step.
#[derive(Clone, Debug)]
pub struct EvolutionAuditRecord {
    pub host_did: HostDid,
    pub upgrade_id: UpgradeId,
    pub evolution_id: EvolutionId,
    /// Append-only sequence of decision hashes (hex).
    pub decision_hashes: Vec<String>,
    /// Creation time, unchanged across appended decisions.
    pub created_ms: i64,
}

impl EvolutionAuditRecord {
    /// A fresh, empty audit trail.
    pub fn new(host_did: HostDid, upgrade_id: UpgradeId, evo_id: EvolutionId, created_ms: i64)
        -> (r: EvolutionAuditRecord)
        ensures
            r.host_did == host_did,
            r.upgrade_id == upgrade_id,
            r.evolution_id == evo_id,
            r.decision_hashes@ == Seq::<String>::empty(),
            r.created_ms == created_ms,
    {
        EvolutionAuditRecord {
            host_did,
            upgrade_id,
            evolution_id: evo_id,
            decision_hashes: Vec::new(),
            created_ms,
        }
    }

    /// Append one decision hash; everything already recorded stays in place.
    pub fn append_decision_hash(&mut self, hash_hex: String)
        ensures
            final(self).decision_hashes@ == old(self).decision_hashes@.push(hash_hex),
            final(self).host_did == old(self).host_did,
            final(self).upgrade_id == old(self).upgrade_id,
            final(self).evolution_id == old(self).evolution_id,
            final(self).created_ms == old(self).created_ms,
    {
        self.decision_hashes.push(hash_hex);
    }
}

/// Blood-token reserve configuration for one host.  Volumes are in
/// microliters, hemoglobin in milligrams per deciliter.
#[derive(Clone, Debug)]
pub struct BloodTokenReserveProfile {
    pub host_did: HostDid,
    pub baseline_hemoglobin: u32,
    pub baseline_volume_ml: u32,
    pub token_capacity_ml: u32,
    pub max_daily_spend_ml: u32,
    pub corridor_id: String,
}

/// Proof of one blood-token spend session.
#[derive(Clone, Debug)]
pub struct BloodSpendProof {
    pub host_did: HostDid,
    pub session_id: String,
    pub corridor_id: String,
    pub requested_ml: u32,
    pub approved_ml: u32,
    pub biomarker_envelope_hash: String,
    pub roh_before: RoH,
    pub roh_after: RoH,
    pub did_signature_hex: String,
}

/// On-ledger entry keyed by (host_did, upgrade_id, evolution_id).
#[derive(Clone, Debug)]
pub struct DecisionLedgerEntry {
    pub entry_id: uuid::Uuid,
    pub host_did: HostDid,
    pub upgrade_id: UpgradeId,
    pub evolution_id: EvolutionId,

    pub role: DecisionRole,
    pub kind: DecisionKind,

    pub roh_before: Option<RoH>,
    pub roh_after: Option<RoH>,
    pub roh_bound: Option<RoHBound30>,

    pub reason_code: String,
    pub notes: String,

    /// Physiological / context telemetry hashes.
    pub biophysical_envelope_hash: String,
    pub env_context_hash: String,

    /// Governance / audit fields.
    pub governance_envelope_hash: String,
    pub decision_record_hash: String,
    pub did_signature_hex: String,
    pub timestamp_ms: i64,
}

} // verus!
