use target_fanout::registry::TargetRegistry;
use target_fanout::resolve::{resolve, FallbackPolicy, ResolutionError};
use target_fanout::target::TargetInfo;

fn ti(identifier: &str, display_name: &str) -> TargetInfo {
    TargetInfo::new(identifier.to_string(), display_name.to_string())
}

fn sample_registry() -> TargetRegistry {
    TargetRegistry::new(vec![ti("arm64", "ARM 64-bit"), ti("x86_64", "Intel 64-bit")])
        .expect("identifiers are unique")
}

fn ids(names: &[&str]) -> Vec<String> {
    names.iter().map(|n| n.to_string()).collect()
}

#[test]
fn explicit_list_preserves_caller_order() {
    let reg = sample_registry();
    let explicit = ids(&["x86_64", "arm64"]);
    let resolved = resolve(
        Some(&explicit),
        FallbackPolicy::AllRegisteredTargets,
        None,
        &reg,
    )
    .expect("both identifiers are registered");
    assert_eq!(resolved.len(), 2);
    assert_eq!(resolved[0].identifier, "x86_64");
    assert_eq!(resolved[1].identifier, "arm64");
}

#[test]
fn explicit_single_target_resolves_alone() {
    let reg = sample_registry();
    let explicit = ids(&["arm64"]);
    let resolved = resolve(
        Some(&explicit),
        FallbackPolicy::DetectSingleConnected { required: true },
        None,
        &reg,
    )
    .expect("arm64 is registered");
    assert_eq!(resolved.len(), 1);
    assert_eq!(resolved[0].identifier, "arm64");
}

#[test]
fn unknown_explicit_target_fails_resolution() {
    let reg = sample_registry();
    let explicit = ids(&["arm64", "mips"]);
    let err = resolve(
        Some(&explicit),
        FallbackPolicy::AllRegisteredTargets,
        None,
        &reg,
    )
    .expect_err("mips is not registered");
    assert_eq!(err, ResolutionError::UnknownTarget("mips".to_string()));
}

#[test]
fn unknown_target_is_named_whatever_the_rest_holds() {
    let reg = sample_registry();
    let explicit = ids(&["mips", "arm64"]);
    let err = resolve(
        Some(&explicit),
        FallbackPolicy::AllRegisteredTargets,
        None,
        &reg,
    )
    .expect_err("mips is not registered");
    assert_eq!(err, ResolutionError::UnknownTarget("mips".to_string()));
}

#[test]
fn no_explicit_targets_resolve_to_whole_registry() {
    let reg = sample_registry();
    let resolved = resolve(None, FallbackPolicy::AllRegisteredTargets, None, &reg)
        .expect("the all-registered policy cannot fail");
    assert_eq!(resolved.len(), 2);
    assert_eq!(resolved[0].identifier, "arm64");
    assert_eq!(resolved[1].identifier, "x86_64");
}

#[test]
fn all_registered_on_empty_registry_yields_empty_set() {
    let reg = TargetRegistry::new(vec![]).expect("empty set has no duplicates");
    let resolved = resolve(None, FallbackPolicy::AllRegisteredTargets, None, &reg)
        .expect("an empty registry is not an error");
    assert!(resolved.is_empty());
}

#[test]
fn empty_explicit_list_falls_back_like_absent() {
    let reg = sample_registry();
    let explicit: Vec<String> = vec![];
    let resolved = resolve(
        Some(&explicit),
        FallbackPolicy::AllRegisteredTargets,
        None,
        &reg,
    )
    .expect("fallback to the whole registry");
    assert_eq!(resolved.len(), 2);
}

#[test]
fn required_detection_without_device_fails() {
    let reg = sample_registry();
    let err = resolve(
        None,
        FallbackPolicy::DetectSingleConnected { required: true },
        None,
        &reg,
    )
    .expect_err("nothing was detected");
    assert_eq!(err, ResolutionError::NoTargetDetected);
}

#[test]
fn required_detection_uses_detected_device() {
    let reg = sample_registry();
    let resolved = resolve(
        None,
        FallbackPolicy::DetectSingleConnected { required: true },
        Some(ti("arm64", "ARM 64-bit")),
        &reg,
    )
    .expect("the detector found a device");
    assert_eq!(resolved.len(), 1);
    assert_eq!(resolved[0].identifier, "arm64");
}

#[test]
fn optional_detection_without_device_yields_empty_set() {
    let reg = sample_registry();
    let resolved = resolve(
        None,
        FallbackPolicy::DetectSingleConnected { required: false },
        None,
        &reg,
    )
    .expect("optional detection never fails");
    assert!(resolved.is_empty());
}

#[test]
fn optional_detection_uses_detected_device() {
    let reg = sample_registry();
    let resolved = resolve(
        None,
        FallbackPolicy::DetectSingleConnected { required: false },
        Some(ti("x86_64", "Intel 64-bit")),
        &reg,
    )
    .expect("optional detection never fails");
    assert_eq!(resolved.len(), 1);
    assert_eq!(resolved[0].identifier, "x86_64");
}

#[test]
fn resolution_is_deterministic_for_fixed_inputs() {
    let reg = sample_registry();
    let explicit = ids(&["x86_64", "arm64"]);
    let first = resolve(
        Some(&explicit),
        FallbackPolicy::AllRegisteredTargets,
        None,
        &reg,
    )
    .expect("both identifiers are registered");
    let second = resolve(
        Some(&explicit),
        FallbackPolicy::AllRegisteredTargets,
        None,
        &reg,
    )
    .expect("both identifiers are registered");
    assert_eq!(first, second);
}
