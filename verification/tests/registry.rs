use target_fanout::registry::TargetRegistry;
use target_fanout::target::TargetInfo;

fn ti(identifier: &str, display_name: &str) -> TargetInfo {
    TargetInfo::new(identifier.to_string(), display_name.to_string())
}

fn sample_registry() -> TargetRegistry {
    TargetRegistry::new(vec![ti("arm64", "ARM 64-bit"), ti("x86_64", "Intel 64-bit")])
        .expect("identifiers are unique")
}

#[test]
fn lookup_finds_registered_target() {
    let reg = sample_registry();
    let found = reg.lookup("arm64").expect("arm64 is registered");
    assert_eq!(found.identifier, "arm64");
    assert_eq!(found.display_name, "ARM 64-bit");
}

#[test]
fn lookup_misses_unknown_target() {
    let reg = sample_registry();
    assert!(reg.lookup("mips").is_none());
}

#[test]
fn registry_rejects_duplicate_identifiers() {
    let dup = TargetRegistry::new(vec![ti("arm64", "one"), ti("arm64", "two")]);
    assert!(dup.is_none());
}

#[test]
fn registry_accepts_empty_set() {
    let reg = TargetRegistry::new(vec![]).expect("empty set has no duplicates");
    assert_eq!(reg.len(), 0);
    assert!(reg.all().is_empty());
}

#[test]
fn all_preserves_insertion_order() {
    let reg = sample_registry();
    let all = reg.all();
    assert_eq!(all.len(), 2);
    assert_eq!(all[0].identifier, "arm64");
    assert_eq!(all[1].identifier, "x86_64");
}

#[test]
fn len_counts_registered_targets() {
    let reg = sample_registry();
    assert_eq!(reg.len(), 2);
}
