use handoff_cache::artifact::Artifact;
use handoff_cache::definition_id::DefinitionId;
use handoff_cache::diagnostics::{duplicate_key_diagnostic, missing_key_diagnostic};
use handoff_cache::scope::ValidityScope;
use handoff_cache::slot_map::SlotMap;

#[test]
fn round_trip_returns_stored_content() {
    let w = ValidityScope::new(1);
    let d = DefinitionId::new(11);
    let a = Artifact::new(vec![1, 2, 3], vec![40, 50], &w);
    let mut cache = SlotMap::new();
    cache.store(&w, d, a);
    let got = cache.retrieve(&w, d);
    assert_eq!(got.body(), &vec![1, 2, 3]);
    assert_eq!(got.facts(), &vec![40, 50]);
}

#[test]
fn retrieve_consumes_the_entry() {
    let w = ValidityScope::new(2);
    let d = DefinitionId::new(7);
    let a = Artifact::new(vec![9], vec![], &w);
    let mut cache = SlotMap::new();
    cache.store(&w, d, a);
    assert!(cache.contains(&d));
    let _ = cache.retrieve(&w, d);
    // the key is absent again: a second retrieve is the fatal missing path
    assert!(!cache.contains(&d));
    assert_eq!(
        missing_key_diagnostic(&d).as_str(),
        "no artifact stored for definition 7; a definition without an analyzable body produces none"
    );
}

#[test]
fn duplicate_store_is_the_fatal_path() {
    let w = ValidityScope::new(3);
    let d = DefinitionId::new(1);
    let a1 = Artifact::new(vec![1], vec![], &w);
    let mut cache = SlotMap::new();
    cache.store(&w, d, a1);
    // the key is occupied: a second store for it is the fatal duplicate path
    assert!(cache.contains(&d));
    assert_eq!(
        duplicate_key_diagnostic(&d).as_str(),
        "duplicate artifact stored for definition 1"
    );
}

#[test]
fn never_stored_key_is_absent() {
    let cache = SlotMap::new();
    let d = DefinitionId::new(123456789);
    assert!(!cache.contains(&d));
    assert_eq!(
        missing_key_diagnostic(&d).as_str(),
        "no artifact stored for definition 123456789; a definition without an analyzable body produces none"
    );
}

#[test]
fn independent_slot_maps_are_isolated() {
    // each worker owns its own slot map: a store into one leaves every
    // other behaving as if the key were never stored
    let w = ValidityScope::new(4);
    let d = DefinitionId::new(5);
    let mut first = SlotMap::new();
    let second = SlotMap::new();
    first.store(&w, d, Artifact::new(vec![8], vec![8], &w));
    assert!(first.contains(&d));
    assert!(!second.contains(&d));
}

#[test]
fn store_then_retrieve_then_retrieve_again_scenario() {
    let w = ValidityScope::new(6);
    let d1 = DefinitionId::new(31);
    let a1 = Artifact::new(vec![10, 20], vec![300], &w);
    let mut cache = SlotMap::new();
    cache.store(&w, d1, a1);
    let got = cache.retrieve(&w, d1);
    assert_eq!(got.body(), &vec![10, 20]);
    assert_eq!(got.facts(), &vec![300]);
    // second retrieve of d1 is the fatal missing path, named after the key
    assert!(!cache.contains(&d1));
    let diag = missing_key_diagnostic(&d1);
    assert!(diag.as_str().contains("31"));
    assert!(diag.as_str().starts_with("no artifact stored for definition 31"));
}

#[test]
fn store_twice_scenario() {
    let w = ValidityScope::new(6);
    let d1 = DefinitionId::new(64);
    let a1 = Artifact::new(vec![1], vec![], &w);
    let mut cache = SlotMap::new();
    cache.store(&w, d1, a1);
    // storing a2 under d1 before retrieving is the fatal duplicate path,
    // named after the key
    let a2 = Artifact::new(vec![2], vec![], &w);
    assert!(cache.contains(&d1));
    let diag = duplicate_key_diagnostic(&d1);
    assert_eq!(diag.as_str(), "duplicate artifact stored for definition 64");
    // consuming d1 first makes the second store legitimate
    let _ = cache.retrieve(&w, d1);
    cache.store(&w, d1, a2);
    let got = cache.retrieve(&w, d1);
    assert_eq!(got.body(), &vec![2]);
}

#[test]
fn nested_witness_retrieves() {
    let w = ValidityScope::new(9);
    let d = DefinitionId::new(2);
    let a = Artifact::new(vec![5, 6], vec![7], &w);
    let mut cache = SlotMap::new();
    cache.store(&w, d, a);
    let inner = w.nested();
    assert!(inner.is_nested_within(&w));
    assert!(!w.is_nested_within(&inner));
    let got = cache.retrieve(&inner, d);
    assert_eq!(got.body(), &vec![5, 6]);
    assert!(got.carries_scope_of(&inner));
    assert!(!got.carries_scope_of(&w));
}

#[test]
fn artifact_carries_the_producing_scope() {
    let w = ValidityScope::new(12);
    let other = ValidityScope::new(13);
    let a = Artifact::new(vec![], vec![], &w);
    assert!(a.carries_scope_of(&w));
    assert!(!a.carries_scope_of(&other));
}
