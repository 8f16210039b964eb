use serde_json::Value;
use xi_config::domain::{ConfigDomain, SyntaxDefinition, ViewIdentifier};
use xi_config::error::ConfigError;
use xi_config::json::Table;
use xi_config::pair::ConfigPair;
use xi_config::validator::{KeyValidator, Validator};

fn table_of(entries: Vec<(&str, Value)>) -> Table {
    let mut table = Table::new();
    for (key, value) in entries {
        table.insert(key.to_owned(), value);
    }
    table
}

fn pair_with_base(entries: Vec<(&str, Value)>) -> ConfigPair {
    ConfigPair::new(Some(table_of(entries)), KeyValidator::for_domain(ConfigDomain::General))
}

#[test]
fn merge_gives_user_entries_precedence() {
    let mut pair = pair_with_base(vec![("tab_size", Value::from(1)), ("font_size", Value::from(2))]);
    pair.set_table(table_of(vec![("font_size", Value::from(3))])).unwrap();
    let expected = table_of(vec![("tab_size", Value::from(1)), ("font_size", Value::from(3))]);
    assert_eq!(**pair.cache(), expected);
    // the defaults themselves never change
    let base = table_of(vec![("tab_size", Value::from(1)), ("font_size", Value::from(2))]);
    assert_eq!(pair.base(), Some(&base));
}

#[test]
fn a_new_pair_has_its_defaults_as_snapshot() {
    let pair = pair_with_base(vec![("tab_size", Value::from(1))]);
    assert_eq!(**pair.cache(), table_of(vec![("tab_size", Value::from(1))]));
    assert_eq!(pair.user(), None);
    let bare = ConfigPair::new(None, KeyValidator::for_domain(ConfigDomain::General));
    assert!(bare.cache().is_empty());
    assert_eq!(bare.base(), None);
}

#[test]
fn pairs_of_domains_start_from_the_domain_defaults() {
    let general = ConfigPair::for_domain(ConfigDomain::General);
    let expected = table_of(vec![
        ("tab_size", Value::from(4)),
        ("translate_tabs_to_spaces", Value::from(true)),
        ("font_face", Value::from("InconsolataGo")),
        ("font_size", Value::from(14)),
        ("line_ending", Value::from("\n")),
        ("plugin_search_path", Value::from(vec!["plugins"])),
    ]);
    assert_eq!(**general.cache(), expected);
    let yaml = ConfigPair::for_domain(ConfigDomain::Syntax(SyntaxDefinition::Yaml));
    let expected =
        table_of(vec![("tab_size", Value::from(2)), ("translate_tabs_to_spaces", Value::from(true))]);
    assert_eq!(**yaml.cache(), expected);
    let makefile = ConfigPair::for_domain(ConfigDomain::Syntax(SyntaxDefinition::Makefile));
    assert_eq!(**makefile.cache(), table_of(vec![("translate_tabs_to_spaces", Value::from(false))]));
    let rust = ConfigPair::for_domain(ConfigDomain::Syntax(SyntaxDefinition::Rust));
    assert_eq!(rust.base(), None);
    assert!(rust.cache().is_empty());
    let view = ConfigPair::for_domain(ConfigDomain::UserOverride(ViewIdentifier(4)));
    assert_eq!(view.base(), None);
}

#[test]
fn set_replaces_the_user_table_whole() {
    let mut pair = pair_with_base(vec![("tab_size", Value::from(1))]);
    pair.set_table(table_of(vec![("font_size", Value::from(5)), ("font_face", Value::from("a"))]))
        .unwrap();
    pair.set_table(table_of(vec![("font_face", Value::from("b"))])).unwrap();
    assert_eq!(pair.user(), Some(&table_of(vec![("font_face", Value::from("b"))])));
    let expected = table_of(vec![("tab_size", Value::from(1)), ("font_face", Value::from("b"))]);
    assert_eq!(**pair.cache(), expected);
}

#[test]
fn update_with_null_reverts_to_the_default() {
    let mut pair = pair_with_base(vec![("tab_size", Value::from(1))]);
    pair.set_table(table_of(vec![("tab_size", Value::from(5))])).unwrap();
    assert_eq!(pair.cache().get("tab_size"), Some(&Value::from(5)));
    pair.update_table(table_of(vec![("tab_size", Value::Null)])).unwrap();
    assert_eq!(pair.cache().get("tab_size"), Some(&Value::from(1)));
    assert_eq!(pair.user(), Some(&Table::new()));
}

#[test]
fn update_with_null_removes_a_key_without_default() {
    let mut pair = pair_with_base(vec![("tab_size", Value::from(1))]);
    pair.set_table(table_of(vec![("font_size", Value::from(5))])).unwrap();
    assert!(pair.cache().contains_key("font_size"));
    pair.update_table(table_of(vec![("font_size", Value::Null)])).unwrap();
    assert!(!pair.cache().contains_key("font_size"));
    // unsetting a key that is not set changes nothing
    pair.update_table(table_of(vec![("font_face", Value::Null)])).unwrap();
    assert_eq!(**pair.cache(), table_of(vec![("tab_size", Value::from(1))]));
}

#[test]
fn update_leaves_other_keys_untouched() {
    let mut pair = pair_with_base(vec![]);
    pair.set_table(table_of(vec![("tab_size", Value::from(5)), ("font_size", Value::from(6))]))
        .unwrap();
    pair.update_table(table_of(vec![("tab_size", Value::from(7))])).unwrap();
    let expected = table_of(vec![("tab_size", Value::from(7)), ("font_size", Value::from(6))]);
    assert_eq!(pair.user(), Some(&expected));
    assert_eq!(**pair.cache(), expected);
}

#[test]
fn update_on_a_pair_without_user_settings_starts_from_none() {
    let mut pair = pair_with_base(vec![("tab_size", Value::from(1))]);
    pair.update_table(table_of(vec![("font_face", Value::from("x")), ("tab_size", Value::Null)]))
        .unwrap();
    assert_eq!(pair.user(), Some(&table_of(vec![("font_face", Value::from("x"))])));
    let expected = table_of(vec![("tab_size", Value::from(1)), ("font_face", Value::from("x"))]);
    assert_eq!(**pair.cache(), expected);
}

#[test]
fn refused_set_is_atomic() {
    let mut pair = pair_with_base(vec![("tab_size", Value::from(1))]);
    pair.set_table(table_of(vec![("font_size", Value::from(5))])).unwrap();
    let bad = table_of(vec![
        ("font_face", Value::from("x")),
        ("bogus", Value::from(1)),
        ("tab_size", Value::from(9)),
    ]);
    match pair.set_table(bad) {
        Err(ConfigError::IllegalKey(ref key)) if key == "bogus" => (),
        other => panic!("{:?}", other),
    }
    assert_eq!(pair.user(), Some(&table_of(vec![("font_size", Value::from(5))])));
    let expected = table_of(vec![("tab_size", Value::from(1)), ("font_size", Value::from(5))]);
    assert_eq!(**pair.cache(), expected);
}

#[test]
fn refused_update_is_atomic() {
    let mut pair = pair_with_base(vec![("tab_size", Value::from(1))]);
    pair.set_table(table_of(vec![("font_size", Value::from(5))])).unwrap();
    let bad = table_of(vec![("font_size", Value::Null), ("zzz", Value::Null)]);
    match pair.update_table(bad) {
        Err(ConfigError::IllegalKey(ref key)) if key == "zzz" => (),
        other => panic!("{:?}", other),
    }
    assert_eq!(pair.user(), Some(&table_of(vec![("font_size", Value::from(5))])));
    assert_eq!(pair.cache().get("font_size"), Some(&Value::from(5)));
}

#[test]
fn validator_checks_keys_and_not_values() {
    let general = KeyValidator::for_domain(ConfigDomain::General);
    for key in
        ["tab_size", "line_ending", "translate_tabs_to_spaces", "font_face", "font_size", "plugin_search_path"]
    {
        assert!(general.validate(key, &Value::Null).is_ok());
        assert!(general.validate(key, &Value::from("any")).is_ok());
    }
    match general.validate("Tab_size", &Value::from(4)) {
        Err(ConfigError::IllegalKey(ref key)) if key == "Tab_size" => (),
        other => panic!("{:?}", other),
    }
    assert!(general.validate("", &Value::from(4)).is_err());
    let syntax = KeyValidator::for_domain(ConfigDomain::Syntax(SyntaxDefinition::Rust));
    assert!(syntax.validate("tab_size", &Value::from(4)).is_ok());
    assert!(syntax.validate("plugin_search_path", &Value::from(4)).is_err());
    let sys = KeyValidator::for_domain(ConfigDomain::SysOverride(ViewIdentifier(0)));
    assert!(sys.validate("font_face", &Value::Null).is_ok());
    assert!(sys.validate("plugin_search_path", &Value::Null).is_err());
    let user = KeyValidator::for_domain(ConfigDomain::UserOverride(ViewIdentifier(0)));
    assert!(user.validate("plugin_search_path", &Value::Null).is_err());
}

#[test]
fn validate_table_accepts_the_empty_table() {
    let syntax = KeyValidator::for_domain(ConfigDomain::Syntax(SyntaxDefinition::Rust));
    assert!(syntax.validate_table(&Table::new()).is_ok());
    let legal = table_of(vec![("tab_size", Value::from("wrong type")), ("font_size", Value::Null)]);
    assert!(syntax.validate_table(&legal).is_ok());
    let illegal = table_of(vec![("tab_size", Value::from(1)), ("nope", Value::from(2))]);
    match syntax.validate_table(&illegal) {
        Err(ConfigError::IllegalKey(ref key)) if key == "nope" => (),
        other => panic!("{:?}", other),
    }
}

#[test]
fn error_descriptions() {
    assert_eq!(ConfigError::IllegalKey("k".to_owned()).description(), "illegal key");
    assert_eq!(ConfigError::UnknownDomain("d".to_owned()).description(), "unknown domain");
}
