//! Boot decision: stay resident in the updater, or depart to the application.
use vstd::prelude::*;

verus! {

/// Parameter that asks the updater to stay resident.
pub const BOOTLOADER_KEY: u32 = 0xB007_10AD;

/// Samples of the force-bootloader input taken before the updater settles.
pub const FORCE_SAMPLE_COUNT: u32 = 50;

/// Milliseconds between two samples.
pub const FORCE_SAMPLE_DELAY_MS: u32 = 1;

#[derive(Clone, Copy, PartialEq, Eq, Structural, Debug)]
pub enum BootAction {
    /// Wait, then sample the force-bootloader input.
    Sample,
    /// Enter the request loop.
    StayResident,
    /// Hand control to the application region; there is no return.
    Depart,
}

/// Progress of the boot decision.
#[derive(Clone, Copy, PartialEq, Eq, Structural, Debug)]
pub struct BootDecision {
    /// The parameter from the previous stage equals `BOOTLOADER_KEY`.
    pub param_is_key: bool,
    /// Sample the input even when the parameter already decides departure.
    pub sample_first: bool,
    pub samples_taken: u32,
}

impl BootDecision {
    /// Starts the decision for the parameter handed over by the previous boot
    /// stage. Without `sample_first`, a parameter other than the key departs
    /// at once.
    pub fn start(param: u32, sample_first: bool) -> (r: (BootDecision, BootAction))
        ensures
            r.0.param_is_key == (param == BOOTLOADER_KEY),
            r.0.sample_first == sample_first,
            r.0.samples_taken == 0,
            r.1 == if !sample_first && param != BOOTLOADER_KEY {
                BootAction::Depart
            } else {
                BootAction::Sample
            },
    {
        let d = BootDecision {
            param_is_key: param == BOOTLOADER_KEY,
            sample_first,
            samples_taken: 0,
        };
        if !sample_first && param != BOOTLOADER_KEY {
            (d, BootAction::Depart)
        } else {
            (d, BootAction::Sample)
        }
    }

    /// Takes one sample of the force-bootloader input. An active input departs
    /// at once; after the last quiet sample the parameter decides.
    pub fn on_sample(&mut self, force_active: bool) -> (r: BootAction)
        requires
            old(self).samples_taken < FORCE_SAMPLE_COUNT,
        ensures
            final(self).param_is_key == old(self).param_is_key,
            final(self).sample_first == old(self).sample_first,
            final(self).samples_taken == old(self).samples_taken + 1,
            r == if force_active {
                BootAction::Depart
            } else if final(self).samples_taken < FORCE_SAMPLE_COUNT {
                BootAction::Sample
            } else if old(self).param_is_key {
                BootAction::StayResident
            } else {
                BootAction::Depart
            },
    {
        self.samples_taken = self.samples_taken + 1;
        if force_active {
            BootAction::Depart
        } else if self.samples_taken < FORCE_SAMPLE_COUNT {
            BootAction::Sample
        } else if self.param_is_key {
            BootAction::StayResident
        } else {
            BootAction::Depart
        }
    }
}

} // verus!
