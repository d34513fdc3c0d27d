use vstd::prelude::*;

verus! {

/// How talkative logging should be.
#[derive(Clone, Copy, Debug, PartialEq, Eq)]
pub enum NoiseLevel {
    Polite,
    LoudAndProud,
    FranklyQuitePedantic,
}

/// Whether the tool may ask the user questions.
#[derive(Clone, Copy, Debug, PartialEq, Eq)]
pub enum Interactivity {
    Full,
    NonInteractive,
}

/// Whether existing files may be overwritten.
#[derive(Clone, Copy, Debug, PartialEq, Eq)]
pub enum Clobbering {
    Forbid,
    Allow,
}

/// Which optimization profile a build uses.
#[derive(Clone, Copy, Debug, PartialEq, Eq)]
pub enum Profile {
    Debug,
    Release,
}

} // verus!
