use vstd::prelude::*;

verus! {

use crate::target::TargetInfo;

/// What one target's attempt came to: the originating target's identifier
/// and the action's own result — success, or a failure description.
#[derive(Debug, PartialEq, Eq)]
pub struct TargetOutcome {
    pub identifier: String,
    pub result: Result<(), String>,
}

impl TargetOutcome {
    /// Whether this target's action succeeded.
    pub fn is_success(&self) -> (r: bool)
        ensures
            r == (self.result is Ok),
    {
        self.result.is_ok()
    }
}

/// Every recorded outcome succeeded.
pub open spec fn all_ok(os: Seq<TargetOutcome>) -> bool {
    forall|i: int| 0 <= i < os.len() ==> (#[trigger] os[i]).result is Ok
}

/// The ordered per-target outcomes of one sweep, plus the derived flag.
#[derive(Debug, PartialEq, Eq)]
pub struct AggregateOutcome {
    pub outcomes: Vec<TargetOutcome>,
    pub all_succeeded: bool,
}

impl AggregateOutcome {
    /// The stored flag is exactly what the recorded outcomes derive.
    pub open spec fn wf(&self) -> bool {
        self.all_succeeded == all_ok(self.outcomes@)
    }

    /// Recomputes the aggregate flag from the recorded outcomes; on a
    /// well-formed aggregate it always matches the stored flag.
    pub fn recompute_all_succeeded(&self) -> (r: bool)
        ensures
            r == all_ok(self.outcomes@),
            self.wf() ==> r == self.all_succeeded,
    {
        compute_all_ok(&self.outcomes)
    }
}

/// Derives the aggregate flag: true iff every recorded outcome succeeded.
fn compute_all_ok(outcomes: &Vec<TargetOutcome>) -> (r: bool)
    ensures
        r == all_ok(outcomes@),
{
    let n = outcomes.len();
    let mut ok = true;
    let mut j: usize = 0;
    while j < n
        invariant
            n == outcomes@.len(),
            j <= n,
            ok <==> (forall|i: int| 0 <= i < j ==> (#[trigger] outcomes@[i]).result is Ok),
        decreases n - j,
    {
        if !outcomes[j].result.is_ok() {
            ok = false;
        }
        j += 1;
    }
    ok
}

/// Applies `action` to every target of the resolved set, in the set's order.
/// Failures are isolated: every target is attempted exactly once, a failing
/// action never stops the sweep, and each per-target outcome is recorded
/// under its target's identifier. The aggregate flag is true iff none of the
/// recorded outcomes is a failure.
pub fn execute<F: Fn(&TargetInfo) -> Result<(), String>>(
    targets: &Vec<TargetInfo>,
    action: F,
) -> (agg: AggregateOutcome)
    requires
        forall|i: int| 0 <= i < targets.len() ==> call_requires(action, (&targets[i],)),
    ensures
        agg.wf(),
        agg.outcomes@.len() == targets@.len(),
        forall|i: int|
            0 <= i < targets.len()
                ==> (#[trigger] agg.outcomes@[i]).identifier@ == targets[i].identifier@,
        forall|i: int|
            0 <= i < targets.len()
                ==> call_ensures(action, (&targets[i],), (#[trigger] agg.outcomes@[i]).result),
{
    let n = targets.len();
    let mut outcomes: Vec<TargetOutcome> = Vec::new();
    let mut j: usize = 0;
    while j < n
        invariant
            n == targets@.len(),
            j <= n,
            outcomes@.len() == j,
            forall|i: int| 0 <= i < targets.len() ==> call_requires(action, (&targets[i],)),
            forall|i: int|
                0 <= i < j ==> (#[trigger] outcomes@[i]).identifier@ == targets[i].identifier@,
            forall|i: int|
                0 <= i < j ==> call_ensures(action, (&targets[i],), (#[trigger] outcomes@[i]).result),
        decreases n - j,
    {
        let res = action(&targets[j]);
        outcomes.push(TargetOutcome {
            identifier: targets[j].identifier.clone(),
            result: res,
        });
        j += 1;
    }
    let all_succeeded = compute_all_ok(&outcomes);
    AggregateOutcome { outcomes, all_succeeded }
}

} // verus!
