use vstd::prelude::*;

verus! {

use crate::cli::{clobbering_from_presence, interactivity_from_presence,
    noise_level_from_occurrences, profile_from_presence};
use crate::opts;

/// The flags every subcommand shares.
#[derive(Clone, Copy, Debug, PartialEq, Eq)]
pub struct GlobalFlags {
    pub noise_level: opts::NoiseLevel,
    pub interactivity: opts::Interactivity,
}

impl GlobalFlags {
    /// What the shared flags mean: the verbosity count picks the noise
    /// level, and the non-interactive flag turns questions off.
    pub fn new(verbose_occurrences: u64, non_interactive: bool) -> (g: GlobalFlags)
        ensures
            verbose_occurrences == 0 ==> g.noise_level == opts::NoiseLevel::Polite,
            verbose_occurrences == 1 ==> g.noise_level == opts::NoiseLevel::LoudAndProud,
            verbose_occurrences >= 2 ==> g.noise_level == opts::NoiseLevel::FranklyQuitePedantic,
            g.interactivity == (if non_interactive {
                opts::Interactivity::NonInteractive
            } else {
                opts::Interactivity::Full
            }),
    {
        GlobalFlags {
            noise_level: noise_level_from_occurrences(verbose_occurrences),
            interactivity: interactivity_from_presence(non_interactive),
        }
    }
}

/// The flag that lets a command overwrite existing files.
#[derive(Clone, Copy, Debug, PartialEq, Eq)]
pub struct Clobbering {
    pub clobbering: opts::Clobbering,
}

impl Clobbering {
    /// Present force flag means clobbering is allowed.
    pub fn from_presence(force: bool) -> (c: Clobbering)
        ensures
            c.clobbering == (if force {
                opts::Clobbering::Allow
            } else {
                opts::Clobbering::Forbid
            }),
    {
        Clobbering { clobbering: clobbering_from_presence(force) }
    }
}

/// The flag that switches a build to release optimizations.
#[derive(Clone, Copy, Debug, PartialEq, Eq)]
pub struct Profile {
    pub profile: opts::Profile,
}

impl Profile {
    /// Present release flag means the release profile.
    pub fn from_presence(release: bool) -> (p: Profile)
        ensures
            p.profile == (if release {
                opts::Profile::Release
            } else {
                opts::Profile::Debug
            }),
    {
        Profile { profile: profile_from_presence(release) }
    }
}

/// The smallest command set a barebones tool offers.
#[derive(Clone, Copy, Debug, PartialEq, Eq)]
pub enum Barebones {
    ConfigGen,
    Init { clobbering: Clobbering },
}

} // verus!
