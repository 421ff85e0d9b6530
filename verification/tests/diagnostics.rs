use handoff_cache::definition_id::DefinitionId;
use handoff_cache::diagnostics::{decimal_string, duplicate_key_diagnostic, missing_key_diagnostic};

#[test]
fn decimal_of_zero() {
    assert_eq!(decimal_string(0).as_str(), "0");
}

#[test]
fn decimal_of_single_digit() {
    assert_eq!(decimal_string(9).as_str(), "9");
}

#[test]
fn decimal_of_several_digits() {
    assert_eq!(decimal_string(907).as_str(), "907");
    assert_eq!(decimal_string(1000).as_str(), "1000");
}

#[test]
fn decimal_of_largest_value() {
    assert_eq!(decimal_string(u64::MAX).as_str(), "18446744073709551615");
}

#[test]
fn duplicate_diagnostic_names_the_key() {
    let d = DefinitionId::new(42);
    assert_eq!(
        duplicate_key_diagnostic(&d).as_str(),
        "duplicate artifact stored for definition 42"
    );
}

#[test]
fn missing_diagnostic_names_the_key() {
    let d = DefinitionId::new(0);
    assert_eq!(
        missing_key_diagnostic(&d).as_str(),
        "no artifact stored for definition 0; a definition without an analyzable body produces none"
    );
}
