//! Prompt-pacing check for the point of sale: a simpler, peripheral decision
//! (allow / soft-defer / hard-deny) about whether to present a new payment
//! prompt at all, separate from the admission gate chain.

use vstd::prelude::*;
use crate::guard::sat_inc;
use crate::str_eq;

verus! {

/// How the subject prefers to give consent at the terminal.
#[derive(Debug, Clone)]
pub enum ConsentMode {
    BciState,
    XrVisual,
    ExternalDevice,
    CaregiverCoapproval,
    Unknown(String),
}

impl vstd::std_specs::convert::FromSpecImpl<String> for ConsentMode {
    open spec fn obeys_from_spec() -> bool {
        true
    }

    open spec fn from_spec(s: String) -> ConsentMode {
        if s@ == "bcistate"@ {
            ConsentMode::BciState
        } else if s@ == "xr_visual"@ {
            ConsentMode::XrVisual
        } else if s@ == "external_device"@ {
            ConsentMode::ExternalDevice
        } else if s@ == "caregiver_coapproval"@ {
            ConsentMode::CaregiverCoapproval
        } else {
            ConsentMode::Unknown(s)
        }
    }
}

impl From<String> for ConsentMode {
    /// Parse a consent-mode label; anything unrecognized is kept verbatim as
    /// `Unknown`.
    fn from(s: String) -> (r: ConsentMode) {
        if str_eq(s.as_str(), "bcistate") {
            ConsentMode::BciState
        } else if str_eq(s.as_str(), "xr_visual") {
            ConsentMode::XrVisual
        } else if str_eq(s.as_str(), "external_device") {
            ConsentMode::ExternalDevice
        } else if str_eq(s.as_str(), "caregiver_coapproval") {
            ConsentMode::CaregiverCoapproval
        } else {
            ConsentMode::Unknown(s)
        }
    }
}

/// Static terminal-compatibility profile for one subject.
#[derive(Debug, Clone)]
pub struct ShardProfile {
    pub au_status: String,
    pub latency_tolerance_ms_min: u64,
    pub latency_tolerance_ms_max: u64,
    pub max_prompts_per_hour: u32,
    pub preferred_consent_mode: ConsentMode,
}

/// Mutable prompt-pacing state.
#[derive(Debug, Clone)]
pub struct PromptState {
    pub prompts_issued_this_hour: u32,
    /// Start of the current hourly window, in seconds.
    pub hour_window_started_at: u64,
}

/// Decision returned to the point-of-sale flow.
#[derive(Debug, Clone, Copy, PartialEq, Eq, Structural)]
pub enum PromptDecision {
    Allow,
    /// Reschedule later / ask the companion to queue.
    DeferSoft,
    /// Do not prompt (rights / overload).
    DenyHard,
}

/// Guard encapsulating terminal-compatibility logic for the point of sale.
pub struct AugCitizenPosGuard {
    pub profile: ShardProfile,
    pub state: PromptState,
}

impl AugCitizenPosGuard {
    /// The pacing decision as a function of the profile, the pacing state,
    /// and the expected round-trip latency.
    pub open spec fn spec_should_prompt(self, expected_latency_ms: u64) -> PromptDecision {
        if !(self.profile.au_status@ == "organically_integrated_augmented_citizen"@) {
            PromptDecision::Allow
        } else if self.state.prompts_issued_this_hour >= self.profile.max_prompts_per_hour {
            PromptDecision::DeferSoft
        } else if expected_latency_ms > self.profile.latency_tolerance_ms_max {
            PromptDecision::DeferSoft
        } else if expected_latency_ms < self.profile.latency_tolerance_ms_min {
            PromptDecision::Allow
        } else {
            match self.profile.preferred_consent_mode {
                ConsentMode::Unknown(_) => PromptDecision::DeferSoft,
                _ => PromptDecision::Allow,
            }
        }
    }

    pub fn new(profile: ShardProfile, state: PromptState) -> (r: AugCitizenPosGuard)
        ensures
            r.profile == profile,
            r.state == state,
    {
        AugCitizenPosGuard { profile, state }
    }

    /// Called once per hour by housekeeping to reset the pacing counter.
    pub fn reset_hour_window(&mut self, now: u64)
        ensures
            final(self).state.prompts_issued_this_hour == 0,
            final(self).state.hour_window_started_at == now,
            final(self).profile == old(self).profile,
    {
        self.state.prompts_issued_this_hour = 0;
        self.state.hour_window_started_at = now;
    }

    /// Main entry: should the point of sale present a new payment prompt
    /// now?  `expected_latency_ms` is the current best estimate of the
    /// round-trip latency for this interaction.
    pub fn should_prompt(&self, expected_latency_ms: u64) -> (r: PromptDecision)
        ensures
            r == self.spec_should_prompt(expected_latency_ms),
    {
        // A subject that is not an organically integrated augmented citizen
        // gets the default terminal behavior.
        if !str_eq(self.profile.au_status.as_str(), "organically_integrated_augmented_citizen") {
            return PromptDecision::Allow;
        }

        // Enforce max_prompts_per_hour: soft-defer, ask the companion to
        // reschedule instead of hard-failing.
        if self.state.prompts_issued_this_hour >= self.profile.max_prompts_per_hour {
            return PromptDecision::DeferSoft;
        }

        // Latency tolerance band: prompting in a too-slow regime risks
        // coercion or overload.
        if expected_latency_ms > self.profile.latency_tolerance_ms_max {
            return PromptDecision::DeferSoft;
        }

        if expected_latency_ms < self.profile.latency_tolerance_ms_min {
            // "Too fast" is allowed; downstream pacing is not handled here.
            return PromptDecision::Allow;
        }

        // Respect the preferred consent mode; if the terminal cannot satisfy
        // it, deny hard and require an alternate interface.
        match &self.profile.preferred_consent_mode {
            ConsentMode::BciState => {
                if !self.pos_supports_bci_consent() {
                    return PromptDecision::DenyHard;
                }
            }
            ConsentMode::XrVisual => {
                if !self.pos_supports_xr_overlay() {
                    return PromptDecision::DenyHard;
                }
            }
            ConsentMode::ExternalDevice => {
                if !self.pos_supports_external_device() {
                    return PromptDecision::DenyHard;
                }
            }
            ConsentMode::CaregiverCoapproval => {
                if !self.pos_supports_caregiver_flow() {
                    return PromptDecision::DenyHard;
                }
            }
            ConsentMode::Unknown(_) => {
                // Unknown mode: safest is to defer, not to guess.
                return PromptDecision::DeferSoft;
            }
        }

        PromptDecision::Allow
    }

    /// Called by the point of sale when a prompt is actually shown.
    pub fn record_prompt_issued(&mut self)
        ensures
            final(self).state.prompts_issued_this_hour
                == sat_inc(old(self).state.prompts_issued_this_hour),
            final(self).state.hour_window_started_at == old(self).state.hour_window_started_at,
            final(self).profile == old(self).profile,
    {
        self.state.prompts_issued_this_hour = self.state.prompts_issued_this_hour.saturating_add(
            1,
        );
    }

    /// Capability stub: this terminal is wired to the biophysical consent
    /// path.
    fn pos_supports_bci_consent(&self) -> (r: bool)
        ensures
            r,
    {
        true
    }

    /// Capability stub: XR companion / overlay capability.
    fn pos_supports_xr_overlay(&self) -> (r: bool)
        ensures
            r,
    {
        true
    }

    /// Capability stub: phone / companion-app consent flows.
    fn pos_supports_external_device(&self) -> (r: bool)
        ensures
            r,
    {
        true
    }

    /// Capability stub: dual-approval flow (customer plus caregiver).
    fn pos_supports_caregiver_flow(&self) -> (r: bool)
        ensures
            r,
    {
        true
    }
}

} // verus!
