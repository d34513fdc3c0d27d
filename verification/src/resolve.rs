use vstd::prelude::*;

verus! {

use crate::target::TargetInfo;
use crate::registry::{
    TargetRegistry, lookup_in, contains_id, lemma_lookup_in_found, str_eq,
};

/// How to pick the target set when the caller names none explicitly.
#[derive(Clone, Copy, Debug, PartialEq, Eq)]
pub enum FallbackPolicy {
    /// Use the one currently connected device, as reported by the caller's
    /// detector; with `required` set, a silent detector fails resolution,
    /// otherwise it yields an empty target set.
    DetectSingleConnected { required: bool },
    /// Use every registered target, in registry order.
    AllRegisteredTargets,
}

/// Why resolution failed; fatal to the whole invocation, so no action runs.
#[derive(Debug, PartialEq, Eq)]
pub enum ResolutionError {
    /// An explicitly named identifier is not registered.
    UnknownTarget(String),
    /// The detector was required to find a device and found none.
    NoTargetDetected,
}

/// The ghost value of a `ResolutionError`.
pub enum ResolutionErrorView {
    UnknownTarget(Seq<char>),
    NoTargetDetected,
}

impl View for ResolutionError {
    type V = ResolutionErrorView;

    open spec fn view(&self) -> ResolutionErrorView {
        match self {
            ResolutionError::UnknownTarget(id) => ResolutionErrorView::UnknownTarget(id@),
            ResolutionError::NoTargetDetected => ResolutionErrorView::NoTargetDetected,
        }
    }
}

/// The characters of each identifier in the list.
pub open spec fn id_views(ids: Seq<String>) -> Seq<Seq<char>> {
    ids.map_values(|s: String| s@)
}

/// The ghost value of the optional explicit identifier list.
pub open spec fn explicit_ids(explicit: Option<&Vec<String>>) -> Option<Seq<Seq<char>>> {
    match explicit {
        Some(v) => Some(id_views(v@)),
        None => None,
    }
}

/// Looks every identifier up in caller order; the first unregistered one
/// fails the whole resolution.
pub open spec fn resolve_explicit(
    reg: Seq<TargetInfo>,
    ids: Seq<Seq<char>>,
) -> Result<Seq<TargetInfo>, ResolutionErrorView>
    decreases ids.len(),
{
    if ids.len() == 0 {
        Ok(Seq::empty())
    } else {
        match lookup_in(reg, ids[0]) {
            None => Err(ResolutionErrorView::UnknownTarget(ids[0])),
            Some(t) => match resolve_explicit(reg, ids.drop_first()) {
                Ok(rest) => Ok(seq![t] + rest),
                Err(e) => Err(e),
            },
        }
    }
}

/// What a fallback policy yields, given what the detector reported.
pub open spec fn fallback_spec(
    policy: FallbackPolicy,
    detected: Option<TargetInfo>,
    reg: Seq<TargetInfo>,
) -> Result<Seq<TargetInfo>, ResolutionErrorView> {
    match policy {
        FallbackPolicy::AllRegisteredTargets => Ok(reg),
        FallbackPolicy::DetectSingleConnected { required } => match detected {
            Some(t) => Ok(seq![t]),
            None => if required {
                Err(ResolutionErrorView::NoTargetDetected)
            } else {
                Ok(Seq::empty())
            },
        },
    }
}

/// The definitive resolved target set: a present, non-empty explicit list is
/// looked up in caller order; an absent or empty one falls back to the
/// policy.
pub open spec fn resolve_spec(
    explicit: Option<Seq<Seq<char>>>,
    policy: FallbackPolicy,
    detected: Option<TargetInfo>,
    reg: Seq<TargetInfo>,
) -> Result<Seq<TargetInfo>, ResolutionErrorView> {
    match explicit {
        Some(ids) => if ids.len() > 0 {
            resolve_explicit(reg, ids)
        } else {
            fallback_spec(policy, detected, reg)
        },
        None => fallback_spec(policy, detected, reg),
    }
}

/// When every identifier is registered, explicit resolution succeeds and
/// returns each identifier's registry entry, in the identifiers' order.
pub proof fn lemma_resolve_explicit_ok(reg: Seq<TargetInfo>, ids: Seq<Seq<char>>)
    requires
        forall|i: int| 0 <= i < ids.len() ==> #[trigger] contains_id(reg, ids[i]),
    ensures
        ({
            let r = resolve_explicit(reg, ids);
            &&& r is Ok
            &&& r->Ok_0.len() == ids.len()
            &&& forall|i: int|
                0 <= i < ids.len() ==> r->Ok_0[i] == #[trigger] lookup_in(reg, ids[i])->Some_0
        }),
    decreases ids.len(),
{
    if ids.len() > 0 {
        assert(contains_id(reg, ids[0]));
        assert forall|i: int| 0 <= i < ids.drop_first().len()
            implies #[trigger] contains_id(reg, ids.drop_first()[i]) by {
            assert(ids.drop_first()[i] == ids[i + 1]);
        };
        lemma_resolve_explicit_ok(reg, ids.drop_first());
        let r = resolve_explicit(reg, ids);
        let rest = resolve_explicit(reg, ids.drop_first());
        assert forall|i: int| 0 <= i < ids.len()
            implies r->Ok_0[i] == #[trigger] lookup_in(reg, ids[i])->Some_0 by {
            if i >= 1 {
                assert(ids.drop_first()[i - 1] == ids[i]);
                assert(r->Ok_0[i] == rest->Ok_0[i - 1]);
            }
        };
    }
}

/// The first unregistered identifier is the one named by the failure.
pub proof fn lemma_resolve_explicit_err(reg: Seq<TargetInfo>, ids: Seq<Seq<char>>, j: int)
    requires
        0 <= j < ids.len(),
        !contains_id(reg, ids[j]),
        forall|i: int| 0 <= i < j ==> #[trigger] contains_id(reg, ids[i]),
    ensures
        resolve_explicit(reg, ids) == Err::<Seq<TargetInfo>, ResolutionErrorView>(
            ResolutionErrorView::UnknownTarget(ids[j]),
        ),
    decreases j,
{
    if j == 0 {
    } else {
        assert(contains_id(reg, ids[0]));
        assert(ids.drop_first()[j - 1] == ids[j]);
        assert forall|i: int| 0 <= i < j - 1
            implies #[trigger] contains_id(reg, ids.drop_first()[i]) by {
            assert(ids.drop_first()[i] == ids[i + 1]);
        };
        lemma_resolve_explicit_err(reg, ids.drop_first(), j - 1);
    }
}

/// Clones a slice of descriptors, keeping the very same ghost values.
fn clone_targets(ts: &Vec<TargetInfo>) -> (r: Vec<TargetInfo>)
    ensures
        r@ == ts@,
{
    let mut r: Vec<TargetInfo> = Vec::new();
    let n = ts.len();
    let mut j: usize = 0;
    while j < n
        invariant
            n == ts@.len(),
            j <= n,
            r@ =~= ts@.take(j as int),
        decreases n - j,
    {
        r.push(ts[j].clone());
        proof {
            assert(r@ =~= ts@.take(j + 1));
        }
        j += 1;
    }
    proof {
        assert(ts@.take(n as int) =~= ts@);
    }
    r
}

/// Resolves the definitive ordered target set. Explicit identifiers are
/// looked up in the order the caller gave them, and any unregistered one
/// fails resolution at once; an absent or empty explicit list is decided by
/// the fallback policy, with `detected` standing for what the caller's
/// device detector reported. The result is a pure function of these inputs.
pub fn resolve(
    explicit: Option<&Vec<String>>,
    policy: FallbackPolicy,
    detected: Option<TargetInfo>,
    registry: &TargetRegistry,
) -> (r: Result<Vec<TargetInfo>, ResolutionError>)
    ensures
        (match r {
            Ok(ts) => resolve_spec(explicit_ids(explicit), policy, detected, registry@)
                == Ok::<Seq<TargetInfo>, ResolutionErrorView>(ts@),
            Err(e) => resolve_spec(explicit_ids(explicit), policy, detected, registry@)
                == Err::<Seq<TargetInfo>, ResolutionErrorView>(e@),
        }),
{
    let use_explicit = match explicit {
        Some(ids) => ids.len() > 0,
        None => false,
    };
    if use_explicit {
        let ids = match explicit {
            Some(ids) => ids,
            None => unreached(),
        };
        resolve_explicit_list(ids, registry)
    } else {
        match policy {
            FallbackPolicy::AllRegisteredTargets => Ok(clone_targets(registry.all())),
            FallbackPolicy::DetectSingleConnected { required } => match detected {
                Some(t) => {
                    let mut one: Vec<TargetInfo> = Vec::new();
                    one.push(t);
                    proof {
                        assert(one@ =~= seq![detected->Some_0]);
                    }
                    Ok(one)
                },
                None => if required {
                    Err(ResolutionError::NoTargetDetected)
                } else {
                    Ok(Vec::new())
                },
            },
        }
    }
}

/// The explicit path of `resolve`: every identifier looked up in caller
/// order, the first unregistered one reported as `UnknownTarget`.
fn resolve_explicit_list(
    ids: &Vec<String>,
    registry: &TargetRegistry,
) -> (r: Result<Vec<TargetInfo>, ResolutionError>)
    ensures
        (match r {
            Ok(ts) => resolve_explicit(registry@, id_views(ids@))
                == Ok::<Seq<TargetInfo>, ResolutionErrorView>(ts@),
            Err(e) => resolve_explicit(registry@, id_views(ids@))
                == Err::<Seq<TargetInfo>, ResolutionErrorView>(e@),
        }),
{
    let mut out: Vec<TargetInfo> = Vec::new();
    let n = ids.len();
    let mut j: usize = 0;
    while j < n
        invariant
            n == ids@.len(),
            j <= n,
            out@.len() == j,
            forall|i: int| 0 <= i < j ==> #[trigger] contains_id(registry@, id_views(ids@)[i]),
            forall|i: int|
                0 <= i < j ==> out@[i] == #[trigger] lookup_in(registry@, id_views(ids@)[i])->Some_0,
        decreases n - j,
    {
        match registry.lookup(ids[j].as_str()) {
            Some(t) => {
                out.push(t.clone());
            },
            None => {
                proof {
                    lemma_resolve_explicit_err(registry@, id_views(ids@), j as int);
                }
                return Err(ResolutionError::UnknownTarget(ids[j].clone()));
            },
        }
        j += 1;
    }
    proof {
        lemma_resolve_explicit_ok(registry@, id_views(ids@));
        assert(out@ =~= resolve_explicit(registry@, id_views(ids@))->Ok_0);
    }
    Ok(out)
}

/// Order preservation: when every explicitly named identifier is registered,
/// resolution succeeds and returns the registered descriptors in exactly the
/// order the identifiers were given, whatever the policy and the detector
/// reported.
pub proof fn lemma_resolve_preserves_order(
    ids: Seq<Seq<char>>,
    policy: FallbackPolicy,
    detected: Option<TargetInfo>,
    reg: Seq<TargetInfo>,
)
    requires
        ids.len() > 0,
        forall|i: int| 0 <= i < ids.len() ==> #[trigger] contains_id(reg, ids[i]),
    ensures
        ({
            let r = resolve_spec(Some(ids), policy, detected, reg);
            &&& r is Ok
            &&& r->Ok_0.len() == ids.len()
            &&& forall|i: int|
                0 <= i < ids.len() ==> r->Ok_0[i] == #[trigger] lookup_in(reg, ids[i])->Some_0
            &&& forall|i: int| 0 <= i < ids.len() ==> (#[trigger] r->Ok_0[i]).identifier@ == ids[i]
        }),
{
    lemma_resolve_explicit_ok(reg, ids);
    let r = resolve_spec(Some(ids), policy, detected, reg);
    assert forall|i: int| 0 <= i < ids.len()
        implies (#[trigger] r->Ok_0[i]).identifier@ == ids[i] by {
        assert(contains_id(reg, ids[i]));
        lemma_lookup_in_found(reg, ids[i]);
    };
}

/// An unregistered identifier anywhere in the explicit list makes resolution
/// fail with `UnknownTarget` naming an identifier of the list that is indeed
/// unregistered, regardless of the validity of the other entries.
pub proof fn lemma_resolve_unknown_target(
    ids: Seq<Seq<char>>,
    policy: FallbackPolicy,
    detected: Option<TargetInfo>,
    reg: Seq<TargetInfo>,
)
    requires
        exists|i: int| 0 <= i < ids.len() && !#[trigger] contains_id(reg, ids[i]),
    ensures
        ({
            let r = resolve_spec(Some(ids), policy, detected, reg);
            &&& r is Err
            &&& (r->Err_0 matches ResolutionErrorView::UnknownTarget(u)
                && !contains_id(reg, u) && ids.contains(u))
        }),
    decreases ids.len(),
{
    let iw = choose|i: int| 0 <= i < ids.len() && !#[trigger] contains_id(reg, ids[i]);
    if !contains_id(reg, ids[0]) {
        assert(ids.contains(ids[0]));
    } else {
        assert(iw >= 1);
        assert(ids.drop_first()[iw - 1] == ids[iw]);
        assert(!contains_id(reg, ids.drop_first()[iw - 1]));
        lemma_resolve_unknown_target(ids.drop_first(), policy, detected, reg);
        let rest = resolve_spec(Some(ids.drop_first()), policy, detected, reg);
        assert(ids.drop_first().len() > 0);
        assert(rest == resolve_explicit(reg, ids.drop_first()));
        match rest {
            Err(e) => match e {
                ResolutionErrorView::UnknownTarget(u) => {
                    let k = choose|k: int|
                        0 <= k < ids.drop_first().len() && ids.drop_first()[k] == u;
                    assert(ids[k + 1] == u);
                    assert(ids.contains(u));
                },
                ResolutionErrorView::NoTargetDetected => {},
            },
            Ok(_) => {},
        }
    }
}

/// With no explicit identifiers — absent or empty — the all-registered
/// policy resolves to the whole registry in registry order, the empty
/// registry included.
pub proof fn lemma_resolve_all_registered(detected: Option<TargetInfo>, reg: Seq<TargetInfo>)
    ensures
        resolve_spec(None, FallbackPolicy::AllRegisteredTargets, detected, reg)
            == Ok::<Seq<TargetInfo>, ResolutionErrorView>(reg),
        resolve_spec(Some(Seq::empty()), FallbackPolicy::AllRegisteredTargets, detected, reg)
            == Ok::<Seq<TargetInfo>, ResolutionErrorView>(reg),
{
}

/// With the detect-single policy and `required` set, resolution fails with
/// `NoTargetDetected` exactly when the detector reported nothing; otherwise
/// the resolved set is the detector's single descriptor.
pub proof fn lemma_resolve_detect_required(detected: Option<TargetInfo>, reg: Seq<TargetInfo>)
    ensures
        ({
            let r = resolve_spec(
                None,
                FallbackPolicy::DetectSingleConnected { required: true },
                detected,
                reg,
            );
            &&& (r is Err <==> detected is None)
            &&& (detected is None ==> r == Err::<Seq<TargetInfo>, ResolutionErrorView>(
                ResolutionErrorView::NoTargetDetected,
            ))
            &&& (detected matches Some(t) ==> r == Ok::<Seq<TargetInfo>, ResolutionErrorView>(
                seq![t],
            ))
        }),
{
}

/// With the detect-single policy and `required` unset, resolution never
/// fails: it yields the detector's single descriptor, or the empty set when
/// the detector reported nothing.
pub proof fn lemma_resolve_detect_optional(detected: Option<TargetInfo>, reg: Seq<TargetInfo>)
    ensures
        ({
            let r = resolve_spec(
                None,
                FallbackPolicy::DetectSingleConnected { required: false },
                detected,
                reg,
            );
            &&& r is Ok
            &&& (detected matches Some(t) ==> r->Ok_0 == seq![t])
            &&& (detected is None ==> r->Ok_0 == Seq::<TargetInfo>::empty())
        }),
{
}

} // verus!
