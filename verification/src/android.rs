use vstd::prelude::*;

verus! {

use crate::registry::str_eq;
use crate::resolve::FallbackPolicy;
use crate::target::TargetAction;

/// One parsed invocation of the android subcommand.
#[derive(Debug, PartialEq, Eq)]
pub enum AndroidCommand {
    ToolchainInit { targets: Vec<String> },
    Check { targets: Vec<String> },
    Build { targets: Vec<String>, release: bool },
    Run { targets: Vec<String>, release: bool },
    Stacktrace { target: Option<String> },
}

/// Everything the resolver and the executor need for one android
/// invocation: which identifiers were named explicitly, how to fall back
/// when none were, which capability to exercise, and under which profile.
#[derive(Debug, PartialEq, Eq)]
pub struct ExecutionPlan {
    pub explicit: Option<Vec<String>>,
    pub policy: FallbackPolicy,
    pub action: TargetAction,
    pub release: bool,
}

impl AndroidCommand {
    /// Which command a subcommand name and its arguments mean; exactly the
    /// five names below are accepted.
    pub fn parse(
        name: &str,
        targets: Vec<String>,
        release: bool,
        target: Option<String>,
    ) -> (r: Option<AndroidCommand>)
        ensures
            name@ == "check"@ ==> r == Some(AndroidCommand::Check { targets }),
            name@ == "build"@ ==> r == Some(AndroidCommand::Build { targets, release }),
            name@ == "run"@ ==> r == Some(AndroidCommand::Run { targets, release }),
            name@ == "st"@ ==> r == Some(AndroidCommand::Stacktrace { target }),
            name@ == "toolchain-init"@ ==> r == Some(AndroidCommand::ToolchainInit { targets }),
            (name@ != "check"@ && name@ != "build"@ && name@ != "run"@ && name@ != "st"@
                && name@ != "toolchain-init"@) ==> r is None,
    {
        proof {
            reveal_strlit("check");
            reveal_strlit("build");
            reveal_strlit("run");
            reveal_strlit("st");
            reveal_strlit("toolchain-init");
            assert("check"@.len() == 5);
            assert("build"@.len() == 5);
            assert("run"@.len() == 3);
            assert("st"@.len() == 2);
            assert("toolchain-init"@.len() == 14);
            assert("check"@[0] == 'c');
            assert("build"@[0] == 'b');
        }
        if str_eq(name, "check") {
            Some(AndroidCommand::Check { targets })
        } else if str_eq(name, "build") {
            Some(AndroidCommand::Build { targets, release })
        } else if str_eq(name, "run") {
            Some(AndroidCommand::Run { targets, release })
        } else if str_eq(name, "st") {
            Some(AndroidCommand::Stacktrace { target })
        } else if str_eq(name, "toolchain-init") {
            Some(AndroidCommand::ToolchainInit { targets })
        } else {
            None
        }
    }

    /// The resolution and execution request this command stands for. Check,
    /// build and run want the one connected device when no target is named;
    /// a stacktrace takes at most one explicit target and tolerates a silent
    /// detector; installing toolchains falls back to every registered
    /// target.
    pub fn plan(self) -> (p: ExecutionPlan)
        ensures
            (match self {
                AndroidCommand::Check { targets } => p == (ExecutionPlan {
                    explicit: Some(targets),
                    policy: FallbackPolicy::DetectSingleConnected { required: true },
                    action: TargetAction::Check,
                    release: false,
                }),
                AndroidCommand::Build { targets, release } => p == (ExecutionPlan {
                    explicit: Some(targets),
                    policy: FallbackPolicy::DetectSingleConnected { required: true },
                    action: TargetAction::Build,
                    release: release,
                }),
                AndroidCommand::Run { targets, release } => p == (ExecutionPlan {
                    explicit: Some(targets),
                    policy: FallbackPolicy::DetectSingleConnected { required: true },
                    action: TargetAction::Run,
                    release: release,
                }),
                AndroidCommand::Stacktrace { target } => {
                    &&& p.policy == (FallbackPolicy::DetectSingleConnected { required: false })
                    &&& p.action == TargetAction::Stacktrace
                    &&& p.release == false
                    &&& (match target {
                        Some(t) => p.explicit matches Some(v) && v@ == seq![t],
                        None => p.explicit is None,
                    })
                },
                AndroidCommand::ToolchainInit { targets } => p == (ExecutionPlan {
                    explicit: Some(targets),
                    policy: FallbackPolicy::AllRegisteredTargets,
                    action: TargetAction::InstallToolchain,
                    release: false,
                }),
            }),
    {
        match self {
            AndroidCommand::Check { targets } => ExecutionPlan {
                explicit: Some(targets),
                policy: FallbackPolicy::DetectSingleConnected { required: true },
                action: TargetAction::Check,
                release: false,
            },
            AndroidCommand::Build { targets, release } => ExecutionPlan {
                explicit: Some(targets),
                policy: FallbackPolicy::DetectSingleConnected { required: true },
                action: TargetAction::Build,
                release,
            },
            AndroidCommand::Run { targets, release } => ExecutionPlan {
                explicit: Some(targets),
                policy: FallbackPolicy::DetectSingleConnected { required: true },
                action: TargetAction::Run,
                release,
            },
            AndroidCommand::Stacktrace { target } => {
                let explicit = match target {
                    Some(t) => {
                        let mut one: Vec<String> = Vec::new();
                        one.push(t);
                        proof {
                            assert(one@ =~= seq![one@[0]]);
                        }
                        Some(one)
                    },
                    None => None,
                };
                ExecutionPlan {
                    explicit,
                    policy: FallbackPolicy::DetectSingleConnected { required: false },
                    action: TargetAction::Stacktrace,
                    release: false,
                }
            },
            AndroidCommand::ToolchainInit { targets } => ExecutionPlan {
                explicit: Some(targets),
                policy: FallbackPolicy::AllRegisteredTargets,
                action: TargetAction::InstallToolchain,
                release: false,
            },
        }
    }
}

} // verus!
