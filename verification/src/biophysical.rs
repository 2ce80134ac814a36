//! Merchant-facing view of the host's biophysical network: just enough for a
//! point-of-sale plugin to decide whether a live, rights-safe network stands
//! behind a wallet, without seeing any inner state.

use vstd::prelude::*;

verus! {

#[derive(Debug, Clone, Copy, PartialEq, Eq, Structural)]
pub enum BiophysicalNetworkMode {
    InternalBioOnly,
    InternalBioPlusNfc,
    Offline,
    Other,
}

#[derive(Debug, Clone, Copy, PartialEq, Eq, Structural)]
pub enum NeurostateHealthBand {
    Stable,
    Fragile,
    Recovering,
    Unknown,
}

#[derive(Debug, Clone)]
pub struct ActiveBiophysicalNetwork {
    pub active: bool,
    pub mode: BiophysicalNetworkMode,
    pub health_band: NeurostateHealthBand,
}

/// Minimal view that a point-of-sale plugin needs to know about the host.
#[derive(Debug, Clone)]
pub struct HostBiophysicalContext {
    pub wallet_did: String,
    pub austatus: String,
    pub network: ActiveBiophysicalNetwork,
    pub no_exclusion_basic_services: bool,
    pub no_score_from_inner_state: bool,
}

impl HostBiophysicalContext {
    /// The network is live, runs in an internal-biophysical mode, and the
    /// rights guarantees (no exclusion from basic services, no scoring from
    /// inner state) hold.
    pub open spec fn spec_active_network(&self) -> bool {
        &&& self.network.active
        &&& (self.network.mode == BiophysicalNetworkMode::InternalBioOnly
            || self.network.mode == BiophysicalNetworkMode::InternalBioPlusNfc)
        &&& self.no_exclusion_basic_services
        &&& self.no_score_from_inner_state
    }

    /// Merchant-safe check: is there a live, rights-safe biophysical network
    /// behind this wallet?
    pub fn is_active_biophysical_network(&self) -> (r: bool)
        ensures
            r == self.spec_active_network(),
    {
        self.network.active
            && matches!(self.network.mode, BiophysicalNetworkMode::InternalBioOnly
                                         | BiophysicalNetworkMode::InternalBioPlusNfc)
            && self.no_exclusion_basic_services
            && self.no_score_from_inner_state
    }
}

} // verus!
