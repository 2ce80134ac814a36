//! Risk-of-harm prediction and the guard that turns a predicted value into
//! an upgrade decision.  All normalized quantities are fixed-point
//! thousandths of the unit interval.

use vstd::prelude::*;
use vstd::arithmetic::div_mod::{lemma_div_by_multiple, lemma_div_is_ordered};
use crate::evolution::{RoH, RoHBound30, UpgradeDecision};

verus! {

/// Minimum bundle size for meaningful risk-of-harm evidence.
pub const MIN_EVIDENCE_POINTS: usize = 10;

/// Host state summary used for risk-of-harm prediction.
#[derive(Clone, Copy, Debug, PartialEq, Eq, Structural)]
pub struct RoHGuardedHostState {
    pub roh_baseline: RoH,
    pub bio_k_score: u32,
    pub env_risk_score: u32,
    pub upgrade_intensity: u32,
}

impl RoHGuardedHostState {
    pub fn new(roh_baseline: RoH, bio_k_score: u32, env_risk_score: u32, upgrade_intensity: u32)
        -> (r: RoHGuardedHostState)
        ensures
            r == (RoHGuardedHostState { roh_baseline, bio_k_score, env_risk_score, upgrade_intensity }),
    {
        RoHGuardedHostState { roh_baseline, bio_k_score, env_risk_score, upgrade_intensity }
    }
}

/// The composable predictor's value before clamping, scaled by 1000:
/// baseline + 0.20 * intensity + 0.15 * environment risk − 0.10 * knowledge.
pub open spec fn spec_roh_raw(state: RoHGuardedHostState) -> int {
    1000 * state.roh_baseline + 200 * state.upgrade_intensity + 150 * state.env_risk_score
        - 100 * state.bio_k_score
}

/// The predicted risk of harm: the raw value divided back down and clamped
/// into the unit interval.
pub open spec fn spec_predict_roh(state: RoHGuardedHostState) -> RoH {
    let t = spec_roh_raw(state);
    if t < 0 {
        0
    } else if t / 1000 > 1000 {
        1000
    } else {
        (t / 1000) as u32
    }
}

/// Simple composable predictor (a stand-in for a learned model).
pub fn predict_roh(state: &RoHGuardedHostState) -> (r: RoH)
    ensures
        r == spec_predict_roh(*state),
        r <= 1000,
{
    let t: i64 = 1000 * (state.roh_baseline as i64) + 200 * (state.upgrade_intensity as i64)
        + 150 * (state.env_risk_score as i64) - 100 * (state.bio_k_score as i64);
    if t < 0 {
        0
    } else {
        let q: i64 = t / 1000;
        if q > 1000 {
            1000
        } else {
            q as u32
        }
    }
}

/// Core guard: produce an `UpgradeDecision` and, when the predicted risk is
/// within the 0.30 bound, the bounded value itself; anything above the bound
/// is denied with no state change.
pub fn guarded_decision(predicted: RoH) -> (r: (UpgradeDecision, Option<RoHBound30>))
    ensures
        predicted <= 300 ==> ({
            &&& r.0 matches UpgradeDecision::Approved(b) && b.spec_get() == predicted
            &&& r.1 matches Some(b) && b.spec_get() == predicted
        }),
        predicted > 300 ==> r.0 == UpgradeDecision::Denied && r.1 is None,
{
    if let Some(bound) = RoHBound30::new(predicted) {
        (UpgradeDecision::Approved(bound), Some(bound))
    } else {
        (UpgradeDecision::Denied, None)
    }
}

/// Evidence bundle for risk-of-harm estimation; each point is a thousandth
/// of the unit interval.
#[derive(Clone, Debug)]
pub struct EvidenceBundle {
    pub biokarma_points: Vec<u32>,
    pub device_hour_points: Vec<u32>,
    pub eco_impact_points: Vec<u32>,
}

/// All points of a series sit inside the unit interval.
pub open spec fn spec_points_normalized(s: Seq<u32>) -> bool {
    forall|i: int| 0 <= i < s.len() ==> s[i] <= 1000
}

/// Sum of the first `n` points of a series.
pub open spec fn spec_sum_to(s: Seq<u32>, n: int) -> int
    decreases n,
{
    if n <= 0 {
        0
    } else {
        spec_sum_to(s, n - 1) + s[n - 1]
    }
}

/// The truncated mean of a series, in thousandths.
pub open spec fn spec_avg(s: Seq<u32>) -> int {
    spec_sum_to(s, s.len() as int) / s.len() as int
}

impl EvidenceBundle {
    /// Every series holds at least `MIN_EVIDENCE_POINTS` points.
    pub open spec fn spec_sufficient(self) -> bool {
        &&& self.biokarma_points@.len() >= MIN_EVIDENCE_POINTS
        &&& self.device_hour_points@.len() >= MIN_EVIDENCE_POINTS
        &&& self.eco_impact_points@.len() >= MIN_EVIDENCE_POINTS
    }

    pub fn is_sufficient(&self) -> (r: bool)
        ensures
            r == self.spec_sufficient(),
    {
        self.biokarma_points.len() >= MIN_EVIDENCE_POINTS
            && self.device_hour_points.len() >= MIN_EVIDENCE_POINTS
            && self.eco_impact_points.len() >= MIN_EVIDENCE_POINTS
    }
}

/// Truncated mean of a non-empty series of normalized points.
fn avg_per_mille(points: &Vec<u32>) -> (r: u64)
    requires
        points@.len() > 0,
        spec_points_normalized(points@),
    ensures
        r == spec_avg(points@),
        r <= 1000,
{
    let n = points.len();
    let mut sum: u128 = 0;
    for i in 0..n
        invariant
            n == points@.len(),
            spec_points_normalized(points@),
            sum == spec_sum_to(points@, i as int),
            sum <= 1000 * (i as int),
    {
        assert(points@[i as int] <= 1000);
        sum = sum + points[i] as u128;
    }
    let avg: u128 = sum / (n as u128);
    proof {
        lemma_div_is_ordered(sum as int, 1000 * (n as int), n as int);
        lemma_div_by_multiple(1000, n as int);
        assert((1000 * (n as int)) / (n as int) == 1000);
    }
    avg as u64
}

/// The risk of harm computed from a sufficient evidence bundle: a weighted
/// blend of inverted biokarma, device hours, and inverted eco impact —
/// 0.4 * (1 − biokarma) + 0.3 * device + 0.3 * (1 − eco) — over the
/// truncated per-series means.
pub open spec fn spec_roh_from_biokarma(bundle: EvidenceBundle) -> int {
    (400 * (1000 - spec_avg(bundle.biokarma_points@)) + 300 * spec_avg(
        bundle.device_hour_points@,
    ) + 300 * (1000 - spec_avg(bundle.eco_impact_points@))) / 1000
}

/// Estimate the risk of harm from an evidence bundle; a bundle with too few
/// points in any series yields nothing.
pub fn roh_from_biokarma(bundle: &EvidenceBundle) -> (r: Option<RoH>)
    requires
        spec_points_normalized(bundle.biokarma_points@),
        spec_points_normalized(bundle.device_hour_points@),
        spec_points_normalized(bundle.eco_impact_points@),
    ensures
        bundle.spec_sufficient() ==> (r matches Some(v) && v == spec_roh_from_biokarma(*bundle)
            && v <= 1000),
        !bundle.spec_sufficient() ==> r is None,
{
    if !bundle.is_sufficient() {
        return None;
    }
    let avg_bio = avg_per_mille(&bundle.biokarma_points);
    let avg_device = avg_per_mille(&bundle.device_hour_points);
    let avg_eco = avg_per_mille(&bundle.eco_impact_points);

    let roh: u64 = (400 * (1000 - avg_bio) + 300 * avg_device + 300 * (1000 - avg_eco)) / 1000;
    Some(roh as u32)
}

} // verus!
