use std::path::{Path, PathBuf};

use serde_json::Value;
use xi_config::domain::{ConfigDomain, SyntaxDefinition, ViewIdentifier};
use xi_config::error::ConfigError;
use xi_config::json::Table;
use xi_config::manager::ConfigManager;

fn from_toml_value(value: toml::Value) -> Value {
    match value {
        toml::Value::String(value) => value.into(),
        toml::Value::Float(value) => value.into(),
        toml::Value::Integer(value) => value.into(),
        toml::Value::Boolean(value) => value.into(),
        toml::Value::Datetime(value) => value.to_string().into(),
        toml::Value::Table(table) => {
            let mut m = Table::new();
            for (key, value) in table {
                m.insert(key.clone(), from_toml_value(value));
            }
            m.into()
        }
        toml::Value::Array(array) => {
            let mut l = Vec::new();
            for value in array {
                l.push(from_toml_value(value));
            }
            l.into()
        }
    }
}

fn table_from_toml_str(s: &str) -> Result<Table, toml::de::Error> {
    let table = toml::from_str(s)?;
    let table = from_toml_value(table).as_object().unwrap().to_owned();
    Ok(table)
}

fn table_of(entries: Vec<(&str, Value)>) -> Table {
    let mut table = Table::new();
    for (key, value) in entries {
        table.insert(key.to_owned(), value);
    }
    table
}

fn path_text(path: &Path) -> &str {
    path.to_str().unwrap()
}

#[test]
fn test_prepend_path() {
    let mut manager = ConfigManager::default();
    manager.set_config_dir("BASE_PATH");
    let config = manager.default_buffer_config();
    assert_eq!(config.items.tab_size, 4);
    let search_path: Vec<PathBuf> =
        manager.plugin_search_path().into_iter().map(PathBuf::from).collect();
    assert_eq!(search_path, vec![PathBuf::from("BASE_PATH/plugins")])
}

#[test]
fn test_loading_defaults() {
    let manager = ConfigManager::default();
    let in_use = [
        ConfigDomain::General,
        ConfigDomain::Syntax(SyntaxDefinition::Yaml),
        ConfigDomain::Syntax(SyntaxDefinition::Makefile),
    ];
    for domain in in_use.iter() {
        assert!(manager.pair(*domain).is_some());
    }
    assert!(manager.pair(ConfigDomain::Syntax(SyntaxDefinition::Rust)).is_none());
    assert!(manager.pair(ConfigDomain::UserOverride(ViewIdentifier(1))).is_none());
    let key = SyntaxDefinition::Yaml.into();
    assert!(manager.pair(key).is_some());
    let yaml = manager.pair(key).unwrap();
    assert_eq!(yaml.cache().get("tab_size"), Some(&Value::from(2)));
}

#[test]
fn test_overrides() {
    let user_config = table_from_toml_str(r#"tab_size = 42"#).unwrap();
    let rust_config = table_from_toml_str(r#"tab_size = 31"#).unwrap();

    let mut manager = ConfigManager::default();
    manager
        .set_user_config(ConfigDomain::Syntax(SyntaxDefinition::Rust), rust_config, None)
        .unwrap();

    manager.set_user_config(ConfigDomain::General, user_config, None).unwrap();

    let view_id = ViewIdentifier(1);
    // system override
    let changes = table_of(vec![("tab_size", Value::from(67))]);
    manager.update_user_config(ConfigDomain::SysOverride(view_id), changes).unwrap();

    let config = manager.default_buffer_config();
    assert_eq!(config.source.0.len(), 1);
    assert_eq!(config.items.tab_size, 42);
    // yaml defaults set this to 2
    let config = manager.get_buffer_config(Some(SyntaxDefinition::Yaml), None);
    assert_eq!(config.source.0.len(), 2);
    assert_eq!(config.items.tab_size, 2);
    let config = manager.get_buffer_config(Some(SyntaxDefinition::Yaml), Some(view_id));
    assert_eq!(config.source.0.len(), 3);
    assert_eq!(config.items.tab_size, 67);

    let config = manager.get_buffer_config(Some(SyntaxDefinition::Rust), None);
    assert_eq!(config.items.tab_size, 31);
    let config = manager.get_buffer_config(Some(SyntaxDefinition::Rust), Some(view_id));
    assert_eq!(config.items.tab_size, 67);

    // user override trumps everything
    let changes = table_of(vec![("tab_size", Value::from(85))]);
    manager.update_user_config(ConfigDomain::UserOverride(view_id), changes).unwrap();
    let config = manager.get_buffer_config(Some(SyntaxDefinition::Rust), Some(view_id));
    assert_eq!(config.items.tab_size, 85);
}

#[test]
fn test_validation() {
    let mut manager = ConfigManager::default();
    let user_config = r#"tab_size = 42
font_frace = "InconsolableMo"
translate_tabs_to_spaces = true
"#;
    let user_config = table_from_toml_str(user_config).unwrap();
    let r = manager.set_user_config(ConfigDomain::General, user_config, None);
    match r {
        Err(ConfigError::IllegalKey(ref key)) if key == "font_frace" => (),
        other => panic!("{:?}", other),
    }

    let syntax_config = table_from_toml_str(
        r#"tab_size = 42
plugin_search_path = "/some/path"
translate_tabs_to_spaces = true"#,
    )
    .unwrap();
    let r = manager.set_user_config(
        ConfigDomain::Syntax(SyntaxDefinition::Rust),
        syntax_config,
        None,
    );
    // not valid in a syntax config
    match r {
        Err(ConfigError::IllegalKey(ref key)) if key == "plugin_search_path" => (),
        other => panic!("{:?}", other),
    }
}

#[test]
fn test_should_load() {
    let mut manager = ConfigManager::default();
    let config_dir = PathBuf::from("/home/config/xi");
    manager.set_config_dir(path_text(&config_dir));
    assert!(manager.should_load_file(path_text(&config_dir.join("preferences.xiconfig"))));
    assert!(manager.should_load_file(path_text(&config_dir.join("rust.xiconfig"))));
    assert!(!manager.should_load_file(path_text(&config_dir.join("fake?.xiconfig"))));
    assert!(!manager.should_load_file(path_text(&config_dir.join("preferences.toml"))));
    assert!(!manager.should_load_file(path_text(Path::new("/home/rust.xiconfig"))));
    assert!(!manager.should_load_file(path_text(Path::new("/home/config/xi/subdir/rust.xiconfig"))));
}

#[test]
fn test_updating_in_place() {
    let mut manager = ConfigManager::default();
    assert_eq!(manager.default_buffer_config().items.font_size.as_f64(), Some(14.));
    let changes = table_of(vec![("font_size", Value::from(69)), ("font_face", Value::from("nice"))]);
    manager.update_user_config(ConfigDomain::General, changes).unwrap();
    assert_eq!(manager.default_buffer_config().items.font_size.as_f64(), Some(69.));

    // null values in updates removes keys
    let changes = table_of(vec![("font_size", Value::Null)]);
    manager.update_user_config(ConfigDomain::General, changes).unwrap();
    assert_eq!(manager.default_buffer_config().items.font_size.as_f64(), Some(14.));
    assert_eq!(manager.default_buffer_config().items.font_face, "nice");

    let changes = table_of(vec![("font_face", Value::from("Roboto"))]);
    manager.update_user_config(SyntaxDefinition::Dart.into(), changes).unwrap();
    let config = manager.get_buffer_config(Some(SyntaxDefinition::Dart), None);
    assert_eq!(config.items.font_face, "Roboto");
}

#[test]
fn should_load_needs_a_config_dir() {
    let manager = ConfigManager::default();
    assert!(!manager.should_load_file("/home/config/xi/preferences.xiconfig"));
}

#[test]
fn should_load_compares_directories_by_components() {
    let mut manager = ConfigManager::default();
    manager.set_config_dir("/home/config/xi/");
    assert!(manager.should_load_file("/home/config/xi/yaml.xiconfig"));
    assert!(!manager.should_load_file("/home/config/yaml.xiconfig"));
}

#[test]
fn precedence_chain_falls_back_level_by_level() {
    let view = ViewIdentifier(7);
    let syntax = SyntaxDefinition::Rust;
    let mut manager = ConfigManager::default();
    let set = |n: u64| table_of(vec![("tab_size", Value::from(n))]);
    manager.set_user_config(ConfigDomain::General, set(1), None).unwrap();
    manager.set_user_config(ConfigDomain::Syntax(syntax), set(2), None).unwrap();
    manager.set_user_config(ConfigDomain::SysOverride(view), set(3), None).unwrap();
    manager.set_user_config(ConfigDomain::UserOverride(view), set(4), None).unwrap();
    assert_eq!(manager.get_buffer_config(Some(syntax), Some(view)).items.tab_size, 4);

    let unset = || table_of(vec![("tab_size", Value::Null)]);
    manager.update_user_config(ConfigDomain::UserOverride(view), unset()).unwrap();
    assert_eq!(manager.get_buffer_config(Some(syntax), Some(view)).items.tab_size, 3);
    manager.update_user_config(ConfigDomain::SysOverride(view), unset()).unwrap();
    assert_eq!(manager.get_buffer_config(Some(syntax), Some(view)).items.tab_size, 2);
    manager.update_user_config(ConfigDomain::Syntax(syntax), unset()).unwrap();
    assert_eq!(manager.get_buffer_config(Some(syntax), Some(view)).items.tab_size, 1);
    // other views and syntaxes see the general settings only
    assert_eq!(manager.get_buffer_config(Some(SyntaxDefinition::Go), None).items.tab_size, 1);
}

#[test]
fn resolution_skips_domains_that_are_not_in_use() {
    let manager = ConfigManager::default();
    let config = manager.get_buffer_config(Some(SyntaxDefinition::Rust), Some(ViewIdentifier(3)));
    assert_eq!(config.source.0.len(), 1);
    assert!(manager.pair(ConfigDomain::Syntax(SyntaxDefinition::Rust)).is_none());
    assert!(manager.pair(ConfigDomain::UserOverride(ViewIdentifier(3))).is_none());
    assert!(manager.pair(ConfigDomain::SysOverride(ViewIdentifier(3))).is_none());
}

#[test]
fn refused_set_leaves_user_settings_alone() {
    let mut manager = ConfigManager::default();
    let good = table_of(vec![("tab_size", Value::from(8)), ("font_face", Value::from("Hack"))]);
    manager.set_user_config(ConfigDomain::General, good, Some("/cfg/preferences.xiconfig".into())).unwrap();
    let bad = table_of(vec![
        ("tab_size", Value::from(3)),
        ("no_such_key", Value::from(true)),
        ("font_size", Value::from(11)),
    ]);
    let r = manager.set_user_config(ConfigDomain::General, bad, Some("/cfg/other.xiconfig".into()));
    match r {
        Err(ConfigError::IllegalKey(ref key)) if key == "no_such_key" => (),
        other => panic!("{:?}", other),
    }
    let items = manager.default_buffer_config().items;
    assert_eq!(items.tab_size, 8);
    assert_eq!(items.font_face, "Hack");
    assert_eq!(items.font_size.as_u64(), Some(14));
    // the refused file counts as not loaded
    manager.remove_source("/cfg/other.xiconfig");
    assert_eq!(manager.default_buffer_config().items.tab_size, 8);
}

#[test]
fn refused_update_leaves_user_settings_alone() {
    let mut manager = ConfigManager::default();
    let view = ViewIdentifier(2);
    let good = table_of(vec![("tab_size", Value::from(8))]);
    manager.update_user_config(ConfigDomain::UserOverride(view), good).unwrap();
    let bad = table_of(vec![("tab_size", Value::Null), ("plugin_search_path", Value::from("x"))]);
    let r = manager.update_user_config(ConfigDomain::UserOverride(view), bad);
    match r {
        Err(ConfigError::IllegalKey(ref key)) if key == "plugin_search_path" => (),
        other => panic!("{:?}", other),
    }
    assert_eq!(manager.get_buffer_config(None, Some(view)).items.tab_size, 8);
}

#[test]
fn top_level_key_is_legal_for_general_only() {
    let entry = || table_of(vec![("plugin_search_path", Value::from(vec!["a", "b"]))]);
    let view = ViewIdentifier(1);
    let mut manager = ConfigManager::default();
    assert!(manager.set_user_config(ConfigDomain::General, entry(), None).is_ok());
    for domain in [
        ConfigDomain::Syntax(SyntaxDefinition::Yaml),
        ConfigDomain::UserOverride(view),
        ConfigDomain::SysOverride(view),
    ] {
        match manager.set_user_config(domain, entry(), None) {
            Err(ConfigError::IllegalKey(ref key)) if key == "plugin_search_path" => (),
            other => panic!("{:?}", other),
        }
        match manager.update_user_config(domain, entry()) {
            Err(ConfigError::IllegalKey(ref key)) if key == "plugin_search_path" => (),
            other => panic!("{:?}", other),
        }
    }
}

#[test]
fn unloading_a_source_restores_the_defaults() {
    let mut manager = ConfigManager::default();
    let yaml = ConfigDomain::Syntax(SyntaxDefinition::Yaml);
    let table = table_of(vec![("tab_size", Value::from(9)), ("font_face", Value::from("Mono"))]);
    manager.set_user_config(yaml, table, Some("/cfg/yaml.xiconfig".to_owned())).unwrap();
    let config = manager.get_buffer_config(Some(SyntaxDefinition::Yaml), None);
    assert_eq!(config.items.tab_size, 9);
    assert_eq!(config.items.font_face, "Mono");

    // a path that was not loaded unloads nothing
    manager.remove_source("/cfg/makefile.xiconfig");
    assert_eq!(manager.get_buffer_config(Some(SyntaxDefinition::Yaml), None).items.tab_size, 9);

    manager.remove_source("/cfg/yaml.xiconfig");
    let config = manager.get_buffer_config(Some(SyntaxDefinition::Yaml), None);
    assert_eq!(config.items.tab_size, 2);
    assert_eq!(config.items.font_face, "InconsolataGo");
    let pair = manager.pair(yaml).unwrap();
    assert_eq!(pair.cache().len(), 2);
    // unloading twice changes nothing more
    manager.remove_source("/cfg/yaml.xiconfig");
    assert_eq!(manager.get_buffer_config(Some(SyntaxDefinition::Yaml), None).items.tab_size, 2);
}

#[test]
fn unloading_drops_all_user_settings_of_the_domain() {
    let mut manager = ConfigManager::default();
    let first = table_of(vec![("tab_size", Value::from(9))]);
    manager.set_user_config(ConfigDomain::General, first, Some("/a/preferences.xiconfig".to_owned())).unwrap();
    let second = table_of(vec![("font_face", Value::from("Mono"))]);
    manager.update_user_config(ConfigDomain::General, second).unwrap();
    manager.remove_source("/a/preferences.xiconfig");
    let items = manager.default_buffer_config().items;
    assert_eq!(items.tab_size, 4);
    assert_eq!(items.font_face, "InconsolataGo");
}

#[test]
fn a_path_loaded_again_is_bound_to_the_new_domain() {
    let mut manager = ConfigManager::default();
    let path = "/cfg/shared.xiconfig";
    let rust = ConfigDomain::Syntax(SyntaxDefinition::Rust);
    let go = ConfigDomain::Syntax(SyntaxDefinition::Go);
    manager.set_user_config(rust, table_of(vec![("tab_size", Value::from(5))]), Some(path.to_owned())).unwrap();
    manager.set_user_config(go, table_of(vec![("tab_size", Value::from(6))]), Some(path.to_owned())).unwrap();
    manager.remove_source(path);
    assert_eq!(manager.get_buffer_config(Some(SyntaxDefinition::Rust), None).items.tab_size, 5);
    assert_eq!(manager.get_buffer_config(Some(SyntaxDefinition::Go), None).items.tab_size, 4);
}

#[test]
fn search_path_joins_entries_and_appends_extras() {
    let mut manager = ConfigManager::default();
    let entries = table_of(vec![("plugin_search_path", Value::from(vec!["plugins", "/abs/more"]))]);
    manager.set_user_config(ConfigDomain::General, entries, None).unwrap();
    assert_eq!(manager.plugin_search_path(), vec!["plugins".to_owned(), "/abs/more".to_owned()]);

    manager.set_extras_dir("/usr/share/xi");
    assert_eq!(
        manager.plugin_search_path(),
        vec!["plugins".to_owned(), "/abs/more".to_owned(), "/usr/share/xi".to_owned()]
    );

    manager.set_config_dir("/home/me/.config/xi");
    assert_eq!(
        manager.plugin_search_path(),
        vec![
            "/home/me/.config/xi/plugins".to_owned(),
            "/abs/more".to_owned(),
            "/usr/share/xi".to_owned()
        ]
    );
}

#[test]
fn extras_dir_is_appended_without_a_config_dir() {
    let mut manager = ConfigManager::default();
    manager.set_extras_dir("EXTRAS");
    assert_eq!(manager.plugin_search_path(), vec!["plugins".to_owned(), "EXTRAS".to_owned()]);
    // it is appended again if an entry names it already
    let entries = table_of(vec![("plugin_search_path", Value::from(vec!["EXTRAS"]))]);
    manager.set_user_config(ConfigDomain::General, entries, None).unwrap();
    assert_eq!(manager.plugin_search_path(), vec!["EXTRAS".to_owned(), "EXTRAS".to_owned()]);
}

#[test]
fn search_path_entries_must_be_a_list_of_strings() {
    let mut manager = ConfigManager::default();
    assert_eq!(manager.search_path_entries(), Some(vec!["plugins".to_owned()]));
    let text = table_of(vec![("plugin_search_path", Value::from("/some/path"))]);
    manager.set_user_config(ConfigDomain::General, text, None).unwrap();
    assert_eq!(manager.search_path_entries(), None);
    let mixed = table_of(vec![(
        "plugin_search_path",
        Value::from(vec![Value::from("a"), Value::from(1)]),
    )]);
    manager.set_user_config(ConfigDomain::General, mixed, None).unwrap();
    assert_eq!(manager.search_path_entries(), None);
    let empty = table_of(vec![("plugin_search_path", Value::from(Vec::<String>::new()))]);
    manager.set_user_config(ConfigDomain::General, empty, None).unwrap();
    assert_eq!(manager.search_path_entries(), Some(Vec::new()));
}

#[test]
fn buffer_config_fails_on_a_value_of_the_wrong_type() {
    let mut manager = ConfigManager::default();
    assert!(manager.try_get_buffer_config(None, None).is_some());
    let wrong = table_of(vec![("tab_size", Value::from("four"))]);
    manager.set_user_config(ConfigDomain::General, wrong, None).unwrap();
    assert!(manager.try_get_buffer_config(None, None).is_none());
    let negative = table_of(vec![("tab_size", Value::from(-4))]);
    manager.set_user_config(ConfigDomain::General, negative, None).unwrap();
    assert!(manager.try_get_buffer_config(None, None).is_none());
    let fraction = table_of(vec![("font_size", Value::from(12.5))]);
    manager.set_user_config(ConfigDomain::General, fraction, None).unwrap();
    let config = manager.try_get_buffer_config(None, None).unwrap();
    assert_eq!(config.items.font_size.as_f64(), Some(12.5));
    assert_eq!(config.items.line_ending, "\n");
    assert!(config.items.translate_tabs_to_spaces);
}
