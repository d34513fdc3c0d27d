use vstd::prelude::*;

verus! {

use crate::opts::{Clobbering, Interactivity, NoiseLevel, Profile};
use crate::registry::str_eq;

/// The noise level meant by how often the verbosity flag occurred.
pub fn noise_level_from_occurrences(occurrences: u64) -> (n: NoiseLevel)
    ensures
        occurrences == 0 ==> n == NoiseLevel::Polite,
        occurrences == 1 ==> n == NoiseLevel::LoudAndProud,
        occurrences >= 2 ==> n == NoiseLevel::FranklyQuitePedantic,
{
    if occurrences == 0 {
        NoiseLevel::Polite
    } else if occurrences == 1 {
        NoiseLevel::LoudAndProud
    } else {
        NoiseLevel::FranklyQuitePedantic
    }
}

/// The interactivity meant by the presence of the non-interactive flag.
pub fn interactivity_from_presence(non_interactive: bool) -> (r: Interactivity)
    ensures
        r == (if non_interactive {
            Interactivity::NonInteractive
        } else {
            Interactivity::Full
        }),
{
    if non_interactive {
        Interactivity::NonInteractive
    } else {
        Interactivity::Full
    }
}

/// The clobbering choice meant by the presence of the force flag.
pub fn clobbering_from_presence(force: bool) -> (r: Clobbering)
    ensures
        r == (if force {
            Clobbering::Allow
        } else {
            Clobbering::Forbid
        }),
{
    if force {
        Clobbering::Allow
    } else {
        Clobbering::Forbid
    }
}

/// The build profile meant by the presence of the release flag.
pub fn profile_from_presence(release: bool) -> (r: Profile)
    ensures
        r == (if release {
            Profile::Release
        } else {
            Profile::Debug
        }),
{
    if release {
        Profile::Release
    } else {
        Profile::Debug
    }
}

/// The default log filter for a noise level: warnings only when polite, the
/// tool's own informational logs when loud, everyone's when pedantic.
pub fn default_log_filter(noise_level: NoiseLevel, tool: &str) -> (r: String)
    ensures
        (match noise_level {
            NoiseLevel::Polite => r@ == "warn"@,
            NoiseLevel::LoudAndProud => r@ == tool@ + "=info"@,
            NoiseLevel::FranklyQuitePedantic => r@ == "info"@,
        }),
{
    match noise_level {
        NoiseLevel::Polite => "warn".to_owned(),
        NoiseLevel::LoudAndProud => tool.to_owned().concat("=info"),
        NoiseLevel::FranklyQuitePedantic => "info".to_owned(),
    }
}

/// Drops the duplicated tool name that running as a cargo subcommand inserts:
/// when the second argument equals `tool`, that argument is removed, and
/// otherwise the arguments stay as they are.
pub fn strip_invoked_name(args: Vec<String>, tool: &str) -> (r: Vec<String>)
    ensures
        (if args@.len() >= 2 && args@[1]@ == tool@ {
            r@ == args@.remove(1)
        } else {
            r@ == args@
        }),
{
    let mut args = args;
    if args.len() >= 2 {
        if str_eq(args[1].as_str(), tool) {
            let _dropped = args.remove(1);
        }
    }
    args
}

} // verus!
