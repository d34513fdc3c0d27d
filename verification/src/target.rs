use vstd::prelude::*;

verus! {

/// One registered build destination: the stable key it is looked up by and
/// the label shown to the user.
#[derive(Debug, PartialEq, Eq)]
pub struct TargetInfo {
    pub identifier: String,
    pub display_name: String,
}

impl TargetInfo {
    pub fn new(identifier: String, display_name: String) -> (t: TargetInfo)
        ensures
            t.identifier == identifier,
            t.display_name == display_name,
    {
        TargetInfo { identifier, display_name }
    }
}

impl Clone for TargetInfo {
    fn clone(&self) -> (r: Self)
        ensures
            r == *self,
    {
        TargetInfo {
            identifier: self.identifier.clone(),
            display_name: self.display_name.clone(),
        }
    }
}

/// Which capability of a target one invocation exercises.
#[derive(Clone, Copy, Debug, PartialEq, Eq)]
pub enum TargetAction {
    Check,
    Build,
    Run,
    Stacktrace,
    InstallToolchain,
}

} // verus!
