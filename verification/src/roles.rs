//! The three decision-making roles of the evolution spine — the host, the
//! neurorights board, and the safety board — each producing a signed-off
//! `DecisionRecord`, plus the structural host-veto check that any scheduler
//! must honor.

use vstd::prelude::*;
use crate::evolution::{
    DecisionKind, DecisionRecord, DecisionRole, EvolutionId, HostDid, RoH, RoHBound30, UpgradeId,
};

verus! {

pub trait NeurorightsDecider {
    /// Authorize an upgrade step on neurorights grounds: the record carries
    /// the given identifiers, risk values and labels under the
    /// `NeurorightsDecider` role with kind `Authorize`; its id is freshly
    /// drawn.
    fn decide_neurorights(
        &self,
        host: &HostDid,
        upgrade: &UpgradeId,
        evo: &EvolutionId,
        roh_before: Option<RoH>,
        roh_after: Option<RoH>,
        roh_bound: Option<RoHBound30>,
        reason_code: &str,
        notes: &str,
        now_ms: i64,
    ) -> (r: DecisionRecord)
        ensures
            r.host_did == *host,
            r.upgrade_id == *upgrade,
            r.evolution_id == *evo,
            r.role == DecisionRole::NeurorightsDecider,
            r.kind == DecisionKind::Authorize,
            r.timestamp_ms == now_ms,
            r.roh_before == roh_before,
            r.roh_after == roh_after,
            r.roh_bound == roh_bound,
            r.reason_code@ == reason_code@,
            r.notes@ == notes@,
    ;
}

pub trait SafetyDecider {
    /// Approve an upgrade step on safety grounds: the record carries the
    /// given identifiers, risk values and labels under the `SafetyDecider`
    /// role with kind `Approve`; its id is freshly drawn.
    fn decide_safety(
        &self,
        host: &HostDid,
        upgrade: &UpgradeId,
        evo: &EvolutionId,
        roh_before: Option<RoH>,
        roh_after: Option<RoH>,
        roh_bound: Option<RoHBound30>,
        reason_code: &str,
        notes: &str,
        now_ms: i64,
    ) -> (r: DecisionRecord)
        ensures
            r.host_did == *host,
            r.upgrade_id == *upgrade,
            r.evolution_id == *evo,
            r.role == DecisionRole::SafetyDecider,
            r.kind == DecisionKind::Approve,
            r.timestamp_ms == now_ms,
            r.roh_before == roh_before,
            r.roh_after == roh_after,
            r.roh_bound == roh_bound,
            r.reason_code@ == reason_code@,
            r.notes@ == notes@,
    ;
}

pub trait HostSelfDecider {
    /// The host's own veto: a `Reject` under the `HostSelf` role, leaving
    /// the risk-of-harm unchanged and carrying no bound.
    fn self_veto(
        &self,
        host: &HostDid,
        upgrade: &UpgradeId,
        evo: &EvolutionId,
        roh_before: Option<RoH>,
        reason_code: &str,
        notes: &str,
        now_ms: i64,
    ) -> (r: DecisionRecord)
        ensures
            r.host_did == *host,
            r.upgrade_id == *upgrade,
            r.evolution_id == *evo,
            r.role == DecisionRole::HostSelf,
            r.kind == DecisionKind::Reject,
            r.timestamp_ms == now_ms,
            r.roh_before == roh_before,
            r.roh_after == roh_before,
            r.roh_bound == None::<RoHBound30>,
            r.reason_code@ == reason_code@,
            r.notes@ == notes@,
    ;
}

pub struct NeurorightsBoard;

pub struct SafetyBoard;

pub struct HostSelf;

impl NeurorightsDecider for NeurorightsBoard {
    fn decide_neurorights(
        &self,
        host: &HostDid,
        upgrade: &UpgradeId,
        evo: &EvolutionId,
        roh_before: Option<RoH>,
        roh_after: Option<RoH>,
        roh_bound: Option<RoHBound30>,
        reason_code: &str,
        notes: &str,
        now_ms: i64,
    ) -> DecisionRecord {
        DecisionRecord {
            record_id: uuid::Uuid::new_v4(),
            host_did: HostDid(host.0.clone()),
            upgrade_id: UpgradeId(upgrade.0.clone()),
            evolution_id: EvolutionId(evo.0.clone()),
            role: DecisionRole::NeurorightsDecider,
            kind: DecisionKind::Authorize,
            timestamp_ms: now_ms,
            roh_before,
            roh_after,
            roh_bound,
            reason_code: reason_code.to_owned(),
            notes: notes.to_owned(),
        }
    }
}

impl SafetyDecider for SafetyBoard {
    fn decide_safety(
        &self,
        host: &HostDid,
        upgrade: &UpgradeId,
        evo: &EvolutionId,
        roh_before: Option<RoH>,
        roh_after: Option<RoH>,
        roh_bound: Option<RoHBound30>,
        reason_code: &str,
        notes: &str,
        now_ms: i64,
    ) -> DecisionRecord {
        DecisionRecord {
            record_id: uuid::Uuid::new_v4(),
            host_did: HostDid(host.0.clone()),
            upgrade_id: UpgradeId(upgrade.0.clone()),
            evolution_id: EvolutionId(evo.0.clone()),
            role: DecisionRole::SafetyDecider,
            kind: DecisionKind::Approve,
            timestamp_ms: now_ms,
            roh_before,
            roh_after,
            roh_bound,
            reason_code: reason_code.to_owned(),
            notes: notes.to_owned(),
        }
    }
}

impl HostSelfDecider for HostSelf {
    fn self_veto(
        &self,
        host: &HostDid,
        upgrade: &UpgradeId,
        evo: &EvolutionId,
        roh_before: Option<RoH>,
        reason_code: &str,
        notes: &str,
        now_ms: i64,
    ) -> DecisionRecord {
        DecisionRecord {
            record_id: uuid::Uuid::new_v4(),
            host_did: HostDid(host.0.clone()),
            upgrade_id: UpgradeId(upgrade.0.clone()),
            evolution_id: EvolutionId(evo.0.clone()),
            role: DecisionRole::HostSelf,
            kind: DecisionKind::Reject,
            timestamp_ms: now_ms,
            roh_before,
            roh_after: roh_before,
            roh_bound: None,
            reason_code: reason_code.to_owned(),
            notes: notes.to_owned(),
        }
    }
}

/// Record the host's veto of an evolution step.
pub fn host_self_veto(
    host: &HostDid,
    upgrade: &UpgradeId,
    evo: &EvolutionId,
    roh_before: Option<RoH>,
    reason_code: &str,
    notes: &str,
    now_ms: i64,
) -> (r: DecisionRecord)
    ensures
        r.host_did == *host,
        r.upgrade_id == *upgrade,
        r.evolution_id == *evo,
        r.role == DecisionRole::HostSelf,
        r.kind == DecisionKind::Reject,
        r.timestamp_ms == now_ms,
        r.roh_before == roh_before,
        r.roh_after == roh_before,
        r.roh_bound == None::<RoHBound30>,
        r.reason_code@ == reason_code@,
        r.notes@ == notes@,
{
    let actor = HostSelf;
    actor.self_veto(host, upgrade, evo, roh_before, reason_code, notes, now_ms)
}

/// Record a neurorights authorization of an evolution step.
pub fn neurorights_authorize(
    host: &HostDid,
    upgrade: &UpgradeId,
    evo: &EvolutionId,
    roh_before: Option<RoH>,
    roh_after: Option<RoH>,
    roh_bound: Option<RoHBound30>,
    reason_code: &str,
    notes: &str,
    now_ms: i64,
) -> (r: DecisionRecord)
    ensures
        r.host_did == *host,
        r.upgrade_id == *upgrade,
        r.evolution_id == *evo,
        r.role == DecisionRole::NeurorightsDecider,
        r.kind == DecisionKind::Authorize,
        r.timestamp_ms == now_ms,
        r.roh_before == roh_before,
        r.roh_after == roh_after,
        r.roh_bound == roh_bound,
        r.reason_code@ == reason_code@,
        r.notes@ == notes@,
{
    let board = NeurorightsBoard;
    board.decide_neurorights(
        host,
        upgrade,
        evo,
        roh_before,
        roh_after,
        roh_bound,
        reason_code,
        notes,
        now_ms,
    )
}

/// Record a safety approval of an evolution step.
pub fn safety_approve(
    host: &HostDid,
    upgrade: &UpgradeId,
    evo: &EvolutionId,
    roh_before: Option<RoH>,
    roh_after: Option<RoH>,
    roh_bound: Option<RoHBound30>,
    reason_code: &str,
    notes: &str,
    now_ms: i64,
) -> (r: DecisionRecord)
    ensures
        r.host_did == *host,
        r.upgrade_id == *upgrade,
        r.evolution_id == *evo,
        r.role == DecisionRole::SafetyDecider,
        r.kind == DecisionKind::Approve,
        r.timestamp_ms == now_ms,
        r.roh_before == roh_before,
        r.roh_after == roh_after,
        r.roh_bound == roh_bound,
        r.reason_code@ == reason_code@,
        r.notes@ == notes@,
{
    let board = SafetyBoard;
    board.decide_safety(host, upgrade, evo, roh_before, roh_after, roh_bound, reason_code, notes, now_ms)
}

/// A record that counts as a host veto: the host itself rejected or
/// escalated.
pub open spec fn spec_is_host_veto(d: DecisionRecord) -> bool {
    d.role == DecisionRole::HostSelf && (d.kind == DecisionKind::Reject || d.kind
        == DecisionKind::Escalate)
}

/// Structural veto: any evolution graph or scheduler must check whether the
/// host vetoed before proceeding.
pub fn has_host_veto(decisions: &[DecisionRecord]) -> (r: bool)
    ensures
        r == exists|i: int| 0 <= i < decisions@.len() && spec_is_host_veto(decisions@[i]),
{
    let n = decisions.len();
    for i in 0..n
        invariant
            n == decisions@.len(),
            forall|j: int| 0 <= j < i ==> !spec_is_host_veto(decisions@[j]),
    {
        let d = &decisions[i];
        if matches!(d.role, DecisionRole::HostSelf)
            && matches!(d.kind, DecisionKind::Reject | DecisionKind::Escalate) {
            return true;
        }
    }
    false
}

} // verus!
