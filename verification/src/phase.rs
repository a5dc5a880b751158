//! UI lifecycle: the app stays in `Loading` until the configuration document
//! resolves, then moves once to `Active`. The transition never reverses.

use vstd::prelude::*;

verus! {

/// The UI phase.
#[derive(PartialEq, Eq, Structural, Clone, Copy, Debug)]
pub enum AppPhase {
    /// Waiting for the configuration document.
    Loading,
    /// Interactive; reached once and kept forever.
    Active,
}

/// Phase after one poll tick: `Loading` moves to `Active` exactly when the
/// configuration document has resolved; `Active` stays `Active`.
pub open spec fn spec_phase_step(phase: AppPhase, config_resolved: bool) -> AppPhase {
    match phase {
        AppPhase::Loading => if config_resolved {
            AppPhase::Active
        } else {
            AppPhase::Loading
        },
        AppPhase::Active => AppPhase::Active,
    }
}

impl AppPhase {
    /// The phase at startup.
    pub fn new() -> (p: AppPhase)
        ensures
            p is Loading,
    {
        AppPhase::Loading
    }

    /// One poll tick: `config_resolved` says whether the configuration
    /// document has arrived.
    pub fn step(&mut self, config_resolved: bool)
        ensures
            *final(self) == spec_phase_step(*old(self), config_resolved),
    {
        match self {
            AppPhase::Loading => {
                if config_resolved {
                    *self = AppPhase::Active;
                }
            },
            AppPhase::Active => {},
        }
    }
}

/// Law: the transition is one-way — an active UI never returns to loading,
/// whatever later ticks report.
pub proof fn lemma_active_never_reverses(phase: AppPhase, config_resolved: bool)
    ensures
        phase is Active ==> spec_phase_step(phase, config_resolved) is Active,
{
}

} // verus!
