use platform_config::classify;
use platform_config::ClassificationError;
use platform_config::FieldDescriptor;
use platform_config::FieldPolicy;

fn described(name: &str, optional: bool, waiver: bool, forbid_cli: bool) -> FieldDescriptor {
    FieldDescriptor { name: name.to_string(), is_value_optional: optional, waiver, forbid_cli }
}

#[test]
fn plain_mandatory_field_is_required_on_cli_with_fallback() {
    let d = FieldDescriptor::new("source".to_string(), false);
    assert_eq!(classify(&d), Ok(FieldPolicy::CliRequiredFallbackRequired));
}

#[test]
fn waiver_on_mandatory_field_makes_cli_optional() {
    let d = FieldDescriptor::new("debug".to_string(), false).optional_cmd();
    assert_eq!(classify(&d), Ok(FieldPolicy::CliOptionalOrFallback));
}

#[test]
fn optional_value_implies_optional_cli() {
    let d = FieldDescriptor::new("timeout".to_string(), true);
    assert_eq!(classify(&d), Ok(FieldPolicy::CliOptionalValueOptional));
}

#[test]
fn waiver_on_optional_value_is_redundant_not_an_error() {
    let d = FieldDescriptor::new("timeout".to_string(), true).optional_cmd();
    assert_eq!(classify(&d), Ok(FieldPolicy::CliOptionalValueOptional));
}

#[test]
fn forbidden_cli_with_mandatory_value_is_source_only_required() {
    let d = FieldDescriptor::new("db_host".to_string(), false).no_cmd();
    assert_eq!(classify(&d), Ok(FieldPolicy::SourceOnlyRequired));
}

#[test]
fn forbidden_cli_with_optional_value_is_source_only_optional() {
    let d = FieldDescriptor::new("port".to_string(), true).no_cmd();
    assert_eq!(classify(&d), Ok(FieldPolicy::SourceOnlyOptional));
}

#[test]
fn forbid_cli_has_priority_over_optionality() {
    let d = described("port", true, false, true);
    assert_eq!(classify(&d), Ok(FieldPolicy::SourceOnlyOptional));
    assert!(!d.allow_cli());
}

#[test]
fn waiver_on_forbidden_field_is_a_conflict() {
    let d = described("db_host", false, true, true);
    assert_eq!(
        classify(&d),
        Err(ClassificationError::ConflictingAnnotations("db_host".to_string()))
    );
}

#[test]
fn waiver_on_forbidden_optional_field_is_a_conflict_too() {
    let d = FieldDescriptor::new("port".to_string(), true).no_cmd().optional_cmd();
    assert_eq!(
        classify(&d),
        Err(ClassificationError::ConflictingAnnotations("port".to_string()))
    );
}

#[test]
fn classification_is_field_local_and_repeatable() {
    let d = FieldDescriptor::new("debug".to_string(), false).optional_cmd();
    let first = classify(&d);
    let second = classify(&d);
    assert_eq!(first, second);
}

#[test]
fn new_descriptor_allows_cli_and_has_no_annotations() {
    let d = FieldDescriptor::new("source".to_string(), false);
    assert_eq!(d, described("source", false, false, false));
    assert!(d.allow_cli());
}

#[test]
fn builder_methods_add_one_annotation_each() {
    let d = FieldDescriptor::new("a".to_string(), true).optional_cmd();
    assert_eq!(d, described("a", true, true, false));
    let d = FieldDescriptor::new("a".to_string(), false).no_cmd();
    assert_eq!(d, described("a", false, false, true));
}

#[test]
fn policy_predicates() {
    assert!(FieldPolicy::SourceOnlyRequired.source_only());
    assert!(FieldPolicy::SourceOnlyOptional.source_only());
    assert!(!FieldPolicy::CliRequiredFallbackRequired.source_only());
    assert!(!FieldPolicy::CliOptionalOrFallback.source_only());
    assert!(!FieldPolicy::CliOptionalValueOptional.source_only());

    assert!(FieldPolicy::CliOptionalValueOptional.absence_tolerated());
    assert!(FieldPolicy::SourceOnlyOptional.absence_tolerated());
    assert!(!FieldPolicy::CliRequiredFallbackRequired.absence_tolerated());
    assert!(!FieldPolicy::CliOptionalOrFallback.absence_tolerated());
    assert!(!FieldPolicy::SourceOnlyRequired.absence_tolerated());

    assert!(FieldPolicy::CliRequiredFallbackRequired.cli_mandatory());
    assert!(!FieldPolicy::CliOptionalOrFallback.cli_mandatory());
    assert!(!FieldPolicy::CliOptionalValueOptional.cli_mandatory());
    assert!(!FieldPolicy::SourceOnlyRequired.cli_mandatory());
    assert!(!FieldPolicy::SourceOnlyOptional.cli_mandatory());
}
