use platform_config::CliValues;

#[test]
fn nothing_is_present_on_an_empty_command_line() {
    let cli = CliValues::new();
    assert!(!cli.is_present(&"debug".to_string()));
    assert_eq!(cli.value_of(&"debug".to_string()), None);
}

#[test]
fn supplied_value_is_present_under_its_name_only() {
    let mut cli = CliValues::new();
    cli.supply("port".to_string(), "8080".to_string());
    assert!(cli.is_present(&"port".to_string()));
    assert_eq!(cli.value_of(&"port".to_string()), Some(&"8080".to_string()));
    assert!(!cli.is_present(&"Port".to_string()));
    assert_eq!(cli.value_of(&"por".to_string()), None);
}

#[test]
fn later_supply_overrides_earlier_one() {
    let mut cli = CliValues::new();
    cli.supply("port".to_string(), "1".to_string());
    cli.supply("debug".to_string(), "true".to_string());
    cli.supply("port".to_string(), "2".to_string());
    assert_eq!(cli.value_of(&"port".to_string()), Some(&"2".to_string()));
    assert_eq!(cli.value_of(&"debug".to_string()), Some(&"true".to_string()));
}

#[test]
fn presence_and_value_agree() {
    let mut cli = CliValues::new();
    cli.supply("a".to_string(), "".to_string());
    for name in ["a", "b", ""] {
        let name = name.to_string();
        assert_eq!(cli.is_present(&name), cli.value_of(&name).is_some());
    }
    assert_eq!(cli.value_of(&"a".to_string()), Some(&"".to_string()));
}
