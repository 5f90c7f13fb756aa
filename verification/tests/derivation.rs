use platform_config::analysis::copy_lists;
use platform_config::analysis::StructoptField;
use platform_config::analyze_field;
use platform_config::declaration::copy_meta;
use platform_config::declaration::copy_metas;
use platform_config::declaration::is_option;
use platform_config::declaration::reads_as;
use platform_config::declaration::Attribute;
use platform_config::declaration::Data;
use platform_config::declaration::DeriveInput;
use platform_config::declaration::Field;
use platform_config::declaration::NestedMeta;
use platform_config::declaration::Type;
use platform_config::derive::gen_structopt_struct;
use platform_config::derive::impl_platformconfig_for_struct;
use platform_config::derive::impl_platformconfig_trait;
use platform_config::platformconfig;
use platform_config::schema::SchemaField;
use platform_config::FieldDescriptor;
use platform_config::FieldInfo;
use platform_config::FieldPolicy;
use platform_config::SchemaError;

fn path(segments: &[&str]) -> Type {
    Type::Path(segments.iter().map(|s| s.to_string()).collect())
}

fn word(text: &str) -> NestedMeta {
    NestedMeta::Word(text.to_string())
}

fn other(text: &str) -> NestedMeta {
    NestedMeta::Other(text.to_string())
}

fn list(path: &str, nested: Vec<NestedMeta>) -> Attribute {
    Attribute { path: path.to_string(), nested: Some(nested) }
}

fn field(name: &str, ty: Type, attrs: Vec<Attribute>) -> Field {
    Field { name: name.to_string(), ty, attrs }
}

fn described(name: &str, optional: bool, waiver: bool, forbid_cli: bool) -> FieldDescriptor {
    FieldDescriptor { name: name.to_string(), is_value_optional: optional, waiver, forbid_cli }
}

fn my_app_config() -> Vec<Field> {
    vec![
        field(
            "source",
            path(&["String"]),
            vec![list("platformconfig", vec![other("short = \"s\""), other("long = \"source\"")])],
        ),
        field(
            "debug",
            path(&["bool"]),
            vec![list(
                "platformconfig",
                vec![word("optional_cmd"), other("short = \"d\""), other("long = \"debug\"")],
            )],
        ),
        field("db_host", path(&["String"]), vec![list("platformconfig", vec![word("no_cmd")])]),
        field(
            "timeout",
            path(&["Option"]),
            vec![list("platformconfig", vec![other("short = \"t\""), other("long = \"timeout\"")])],
        ),
        field("port", path(&["Option"]), vec![list("platformconfig", vec![word("no_cmd")])]),
        field("pattern", path(&["Option"]), vec![]),
    ]
}

#[test]
fn option_is_recognised_by_the_last_segment() {
    assert!(is_option(&path(&["Option"])));
    assert!(is_option(&path(&["std", "option", "Option"])));
    assert!(!is_option(&path(&["String"])));
    assert!(!is_option(&path(&["Option", "Inner"])));
    assert!(!is_option(&path(&["option"])));
    assert!(!is_option(&path(&[])));
    assert!(!is_option(&Type::Other));
}

#[test]
fn reads_as_compares_whole_texts() {
    assert!(reads_as(&"no_cmd".to_string(), "no_cmd"));
    assert!(!reads_as(&"no_cmd ".to_string(), "no_cmd"));
    assert!(!reads_as(&"".to_string(), "no_cmd"));
    assert!(reads_as(&"".to_string(), ""));
}

#[test]
fn copies_are_equal_to_their_originals() {
    assert_eq!(copy_meta(&word("a")), word("a"));
    assert_eq!(copy_meta(&other("b = 1")), other("b = 1"));
    let items = vec![word("a"), other("b = 1"), word("c")];
    assert_eq!(copy_metas(&items), items);
    let lists = vec![items, vec![], vec![other("x")]];
    assert_eq!(copy_lists(&lists), lists);
}

#[test]
fn field_info_starts_without_annotations() {
    let f = field("source", path(&["Option"]), vec![list("platformconfig", vec![word("no_cmd")])]);
    let info = FieldInfo::new(&f);
    assert_eq!(info.descriptor, described("source", false, false, false));
    assert!(!info.has_structopt_attrs());
    assert!(!info.is_optional());
    assert!(!info.is_optional_cmd());
    assert!(info.is_cmd_arg());
}

#[test]
fn analysis_of_the_example_configuration() {
    let infos: Vec<FieldInfo> = my_app_config().iter().map(analyze_field).collect();
    let descriptors: Vec<&FieldDescriptor> = infos.iter().map(|i| &i.descriptor).collect();
    assert_eq!(
        descriptors,
        vec![
            &described("source", false, false, false),
            &described("debug", false, true, false),
            &described("db_host", false, false, true),
            &described("timeout", true, false, false),
            &described("port", true, false, true),
            &described("pattern", true, false, false),
        ]
    );
    assert_eq!(
        infos[0].structopt_attrs,
        vec![vec![other("short = \"s\""), other("long = \"source\"")]]
    );
    assert_eq!(
        infos[1].structopt_attrs,
        vec![vec![other("short = \"d\""), other("long = \"debug\"")]]
    );
    assert!(!infos[2].has_structopt_attrs());
    assert!(infos[3].has_structopt_attrs());
    assert!(!infos[4].has_structopt_attrs());
    assert!(!infos[5].has_structopt_attrs());
}

#[test]
fn analysis_ignores_foreign_and_non_list_attributes() {
    let f = field(
        "a",
        path(&["u32"]),
        vec![
            list("serde", vec![word("optional_cmd"), word("no_cmd")]),
            Attribute { path: "platformconfig".to_string(), nested: None },
            Attribute { path: "doc".to_string(), nested: None },
        ],
    );
    let info = analyze_field(&f);
    assert_eq!(info.descriptor, described("a", false, false, false));
    assert!(!info.has_structopt_attrs());
}

#[test]
fn analysis_reads_every_platformconfig_attribute() {
    let f = field(
        "a",
        path(&["u32"]),
        vec![
            list("platformconfig", vec![other("long = \"a\"")]),
            list("doc", vec![]),
            list("platformconfig", vec![word("optional_cmd")]),
            list("platformconfig", vec![word("hidden"), word("no_cmd"), other("short = \"a\"")]),
        ],
    );
    let info = analyze_field(&f);
    assert_eq!(info.descriptor, described("a", false, true, true));
    assert_eq!(
        info.structopt_attrs,
        vec![vec![other("long = \"a\"")], vec![word("hidden"), other("short = \"a\"")]]
    );
}

#[test]
fn own_words_count_only_as_bare_words() {
    let f = field(
        "a",
        path(&["u32"]),
        vec![list("platformconfig", vec![other("optional_cmd"), other("no_cmd = true")])],
    );
    let info = analyze_field(&f);
    assert_eq!(info.descriptor, described("a", false, false, false));
    assert_eq!(info.structopt_attrs, vec![vec![other("optional_cmd"), other("no_cmd = true")]]);
}

#[test]
fn optional_type_makes_the_command_line_optional() {
    let info = analyze_field(&field("timeout", path(&["Option"]), vec![]));
    assert!(info.is_optional());
    assert!(info.is_optional_cmd());
    assert!(info.is_cmd_arg());
    assert!(!info.descriptor.waiver);
}

#[test]
fn structopt_field_of_each_kind() {
    let fields = my_app_config();
    let made: Vec<Option<StructoptField>> =
        fields.iter().map(|f| analyze_field(f).structopt_field()).collect();
    assert_eq!(
        made[0],
        Some(StructoptField {
            name: "source".to_string(),
            required: true,
            wrapped: false,
            attrs: vec![vec![other("short = \"s\""), other("long = \"source\"")]],
        })
    );
    assert_eq!(
        made[1],
        Some(StructoptField {
            name: "debug".to_string(),
            required: false,
            wrapped: true,
            attrs: vec![vec![other("short = \"d\""), other("long = \"debug\"")]],
        })
    );
    assert_eq!(made[2], None);
    assert_eq!(
        made[3],
        Some(StructoptField {
            name: "timeout".to_string(),
            required: false,
            wrapped: false,
            attrs: vec![vec![other("short = \"t\""), other("long = \"timeout\"")]],
        })
    );
    assert_eq!(made[4], None);
    assert_eq!(
        made[5],
        Some(StructoptField {
            name: "pattern".to_string(),
            required: false,
            wrapped: false,
            attrs: vec![],
        })
    );
}

#[test]
fn structopt_struct_is_named_after_the_type_and_holds_cli_fields_only() {
    let infos: Vec<FieldInfo> = my_app_config().iter().map(analyze_field).collect();
    let described = gen_structopt_struct(&"MyAppConfig".to_string(), &infos);
    assert_eq!(described.name, "PlatformConfigMyAppConfigStructOpt");
    let names: Vec<&str> = described.fields.iter().map(|f| f.name.as_str()).collect();
    assert_eq!(names, vec!["source", "debug", "timeout", "pattern"]);
    let required: Vec<bool> = described.fields.iter().map(|f| f.required).collect();
    assert_eq!(required, vec![true, false, false, false]);
}

#[test]
fn structopt_struct_of_no_fields() {
    let described = gen_structopt_struct(&"".to_string(), &Vec::new());
    assert_eq!(described.name, "PlatformConfigStructOpt");
    assert!(described.fields.is_empty());
}

#[test]
fn schema_of_the_example_configuration() {
    let infos: Vec<FieldInfo> = my_app_config().iter().map(analyze_field).collect();
    let schema = impl_platformconfig_trait(&infos).unwrap();
    let expected = [
        ("source", FieldPolicy::CliRequiredFallbackRequired),
        ("debug", FieldPolicy::CliOptionalOrFallback),
        ("db_host", FieldPolicy::SourceOnlyRequired),
        ("timeout", FieldPolicy::CliOptionalValueOptional),
        ("port", FieldPolicy::SourceOnlyOptional),
        ("pattern", FieldPolicy::CliOptionalValueOptional),
    ];
    assert_eq!(schema.len(), expected.len());
    for (i, (name, policy)) in expected.iter().enumerate() {
        assert_eq!(
            schema.field(i),
            Some(&SchemaField { name: name.to_string(), policy: *policy })
        );
    }
}

#[test]
fn first_defect_ends_the_derivation() {
    let fields = vec![
        field("good", path(&["u32"]), vec![]),
        field(
            "clash",
            path(&["u32"]),
            vec![list("platformconfig", vec![word("no_cmd"), word("optional_cmd")])],
        ),
        field("good", path(&["u32"]), vec![]),
    ];
    assert_eq!(
        impl_platformconfig_for_struct(&"T".to_string(), &fields),
        Err(SchemaError::ConflictingAnnotations("clash".to_string()))
    );
    let fields = vec![field("same", path(&["u32"]), vec![]), field("same", path(&["u8"]), vec![])];
    assert_eq!(
        impl_platformconfig_for_struct(&"T".to_string(), &fields),
        Err(SchemaError::DuplicateField("same".to_string()))
    );
    let fields = vec![field("r#type", path(&["u32"]), vec![])];
    assert_eq!(
        impl_platformconfig_for_struct(&"T".to_string(), &fields),
        Err(SchemaError::InvalidFieldName("r#type".to_string()))
    );
}

#[test]
fn platformconfig_derives_schema_and_command_line_struct() {
    let input = DeriveInput { name: "MyAppConfig".to_string(), data: Data::Struct(my_app_config()) };
    let derived = platformconfig(&input).unwrap();
    assert_eq!(derived.schema.len(), 6);
    assert_eq!(
        derived.schema.policy_of(&"debug".to_string()),
        Some(FieldPolicy::CliOptionalOrFallback)
    );
    assert_eq!(derived.structopt.name, "PlatformConfigMyAppConfigStructOpt");
    assert_eq!(derived.structopt.fields.len(), 4);
    assert!(derived.structopt.fields[1].wrapped);
}

#[test]
fn platformconfig_of_a_struct_without_fields() {
    let input = DeriveInput { name: "Empty".to_string(), data: Data::Struct(Vec::new()) };
    let derived = platformconfig(&input).unwrap();
    assert_eq!(derived.schema.len(), 0);
    assert_eq!(derived.structopt.name, "PlatformConfigEmptyStructOpt");
    assert!(derived.structopt.fields.is_empty());
}
