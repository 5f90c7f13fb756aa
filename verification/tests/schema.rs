use platform_config::schema::SchemaField;
use platform_config::source::key_char;
use platform_config::source::plain_key;
use platform_config::surface;
use platform_config::surface::SurfaceArgument;
use platform_config::FieldDescriptor;
use platform_config::FieldPolicy;
use platform_config::Schema;
use platform_config::SchemaError;

fn example_schema() -> Schema {
    let mut schema = Schema::new();
    schema.register(&FieldDescriptor::new("source".to_string(), false)).unwrap();
    schema.register(&FieldDescriptor::new("debug".to_string(), false).optional_cmd()).unwrap();
    schema.register(&FieldDescriptor::new("db_host".to_string(), false).no_cmd()).unwrap();
    schema.register(&FieldDescriptor::new("timeout".to_string(), true)).unwrap();
    schema.register(&FieldDescriptor::new("port".to_string(), true).no_cmd()).unwrap();
    schema.register(&FieldDescriptor::new("pattern".to_string(), true)).unwrap();
    schema
}

#[test]
fn new_schema_is_empty() {
    let schema = Schema::new();
    assert_eq!(schema.len(), 0);
    assert_eq!(schema.field(0), None);
    assert_eq!(schema.position_of(&"a".to_string()), None);
    assert!(surface(&schema).is_empty());
}

#[test]
fn register_keeps_declaration_order_and_policies() {
    let schema = example_schema();
    assert_eq!(schema.len(), 6);
    let expected = [
        ("source", FieldPolicy::CliRequiredFallbackRequired),
        ("debug", FieldPolicy::CliOptionalOrFallback),
        ("db_host", FieldPolicy::SourceOnlyRequired),
        ("timeout", FieldPolicy::CliOptionalValueOptional),
        ("port", FieldPolicy::SourceOnlyOptional),
        ("pattern", FieldPolicy::CliOptionalValueOptional),
    ];
    for (i, (name, policy)) in expected.iter().enumerate() {
        assert_eq!(
            schema.field(i),
            Some(&SchemaField { name: name.to_string(), policy: *policy })
        );
        assert_eq!(schema.position_of(&name.to_string()), Some(i));
        assert_eq!(schema.policy_of(&name.to_string()), Some(*policy));
    }
    assert_eq!(schema.field(6), None);
    assert_eq!(schema.policy_of(&"missing".to_string()), None);
}

#[test]
fn register_rejects_conflicting_annotations() {
    let mut schema = Schema::new();
    let d = FieldDescriptor::new("db_host".to_string(), false).no_cmd().optional_cmd();
    assert_eq!(
        schema.register(&d),
        Err(SchemaError::ConflictingAnnotations("db_host".to_string()))
    );
    assert_eq!(schema.len(), 0);
}

#[test]
fn register_rejects_duplicate_names() {
    let mut schema = Schema::new();
    schema.register(&FieldDescriptor::new("port".to_string(), false)).unwrap();
    let again = FieldDescriptor::new("port".to_string(), true).no_cmd();
    assert_eq!(schema.register(&again), Err(SchemaError::DuplicateField("port".to_string())));
    assert_eq!(schema.len(), 1);
    assert_eq!(
        schema.policy_of(&"port".to_string()),
        Some(FieldPolicy::CliRequiredFallbackRequired)
    );
}

#[test]
fn register_rejects_names_that_are_no_plain_keys() {
    for name in ["", "a.b", "a[0]", "a[-1]", "with space", "caf\u{e9}", "a]"] {
        let mut schema = Schema::new();
        let d = FieldDescriptor::new(name.to_string(), false);
        assert_eq!(schema.register(&d), Err(SchemaError::InvalidFieldName(name.to_string())));
        assert_eq!(schema.len(), 0);
    }
}

#[test]
fn invalid_name_is_reported_before_conflict_and_conflict_before_duplicate() {
    let mut schema = Schema::new();
    schema.register(&FieldDescriptor::new("a".to_string(), false)).unwrap();
    let bad_name = FieldDescriptor::new("a.b".to_string(), false).no_cmd().optional_cmd();
    assert_eq!(
        schema.register(&bad_name),
        Err(SchemaError::InvalidFieldName("a.b".to_string()))
    );
    let conflicting_duplicate = FieldDescriptor::new("a".to_string(), false).no_cmd().optional_cmd();
    assert_eq!(
        schema.register(&conflicting_duplicate),
        Err(SchemaError::ConflictingAnnotations("a".to_string()))
    );
}

#[test]
fn plain_keys_are_letters_digits_underscore_and_dash() {
    assert!(plain_key(&"debug".to_string()));
    assert!(plain_key(&"db_host".to_string()));
    assert!(plain_key(&"DB-Host-2".to_string()));
    assert!(plain_key(&"0".to_string()));
    assert!(!plain_key(&"".to_string()));
    assert!(!plain_key(&"a.b".to_string()));
    assert!(!plain_key(&"a[1]".to_string()));
    assert!(!plain_key(&"a b".to_string()));
    assert!(!plain_key(&"\u{e9}".to_string()));
}

#[test]
fn key_characters_at_the_edges_of_their_ranges() {
    for c in ['a', 'z', 'A', 'Z', '0', '9', '_', '-'] {
        assert!(key_char(c));
    }
    for c in ['`', '{', '@', '[', '/', ':', '.', ']', ' ', '\u{e9}'] {
        assert!(!key_char(c));
    }
}

#[test]
fn surface_shows_cli_fields_only_in_declaration_order() {
    let schema = example_schema();
    let arguments = surface(&schema);
    assert_eq!(
        arguments,
        vec![
            SurfaceArgument { name: "source".to_string(), required: true },
            SurfaceArgument { name: "debug".to_string(), required: false },
            SurfaceArgument { name: "timeout".to_string(), required: false },
            SurfaceArgument { name: "pattern".to_string(), required: false },
        ]
    );
}

#[test]
fn surface_never_shows_source_only_fields() {
    let schema = example_schema();
    let arguments = surface(&schema);
    assert!(arguments.iter().all(|a| a.name != "db_host" && a.name != "port"));
}

#[test]
fn surface_of_source_only_schema_is_empty() {
    let mut schema = Schema::new();
    schema.register(&FieldDescriptor::new("db_host".to_string(), false).no_cmd()).unwrap();
    schema.register(&FieldDescriptor::new("port".to_string(), true).no_cmd()).unwrap();
    assert!(surface(&schema).is_empty());
}
