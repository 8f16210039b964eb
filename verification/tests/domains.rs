use xi_config::domain::{ConfigDomain, SyntaxDefinition, ViewIdentifier};
use xi_config::error::ConfigError;
use xi_config::paths::{config_dir_impl, has_config_extension};

#[test]
fn get_buffer_config() {
    let p = config_dir_impl(Some("custom/xi/conf"), None, Some("/home/me"));
    assert_eq!(p, "custom/xi/conf");

    let p = config_dir_impl(Some("custom/xi/conf"), Some("/me/config"), Some("/home/me"));
    assert_eq!(p, "custom/xi/conf");

    let p = config_dir_impl(None, Some("/me/config"), None);
    assert_eq!(p, "/me/config/xi");

    let p = config_dir_impl(None, None, Some("/home/me"));
    assert_eq!(p, "/home/me/.config/xi");
}

#[test]
fn test_config_domain_serde() {
    assert!(ConfigDomain::try_from_path("hi/python.xiconfig").is_ok());
    assert!(ConfigDomain::try_from_path("hi/preferences.xiconfig").is_ok());
    assert!(ConfigDomain::try_from_path("hi/rust.xiconfig").is_ok());
    assert!(ConfigDomain::try_from_path("hi/unknown.xiconfig").is_err());
}

#[test]
fn domains_of_paths() {
    assert_eq!(ConfigDomain::try_from_path("hi/preferences.xiconfig").unwrap(), ConfigDomain::General);
    assert_eq!(
        ConfigDomain::try_from_path("/a/b/python.xiconfig").unwrap(),
        ConfigDomain::Syntax(SyntaxDefinition::Python)
    );
    assert_eq!(
        ConfigDomain::try_from_path("makefile").unwrap(),
        ConfigDomain::Syntax(SyntaxDefinition::Makefile)
    );
    match ConfigDomain::try_from_path("hi/unknown.xiconfig") {
        Err(ConfigError::UnknownDomain(ref name)) if name == "unknown" => (),
        other => panic!("{:?}", other),
    }
    match ConfigDomain::try_from_path("hi/Rust.xiconfig") {
        Err(ConfigError::UnknownDomain(ref name)) if name == "Rust" => (),
        other => panic!("{:?}", other),
    }
}

#[test]
fn domains_of_names() {
    assert_eq!(ConfigDomain::try_from_name("preferences").unwrap(), ConfigDomain::General);
    let named = [
        ("rust", SyntaxDefinition::Rust),
        ("markdown", SyntaxDefinition::Markdown),
        ("python", SyntaxDefinition::Python),
        ("c", SyntaxDefinition::C),
        ("go", SyntaxDefinition::Go),
        ("dart", SyntaxDefinition::Dart),
        ("swift", SyntaxDefinition::Swift),
        ("toml", SyntaxDefinition::Toml),
        ("json", SyntaxDefinition::Json),
        ("yaml", SyntaxDefinition::Yaml),
        ("cpp", SyntaxDefinition::Cpp),
        ("objc", SyntaxDefinition::Objc),
        ("shell", SyntaxDefinition::Shell),
        ("ruby", SyntaxDefinition::Ruby),
        ("javascript", SyntaxDefinition::Javascript),
        ("java", SyntaxDefinition::Java),
        ("php", SyntaxDefinition::Php),
        ("perl", SyntaxDefinition::Perl),
        ("makefile", SyntaxDefinition::Makefile),
    ];
    for (name, syntax) in named.iter() {
        assert_eq!(SyntaxDefinition::try_from_name(name), Some(*syntax));
        assert_eq!(ConfigDomain::try_from_name(name).unwrap(), ConfigDomain::Syntax(*syntax));
    }
    assert_eq!(SyntaxDefinition::try_from_name("plaintext"), None);
    assert_eq!(SyntaxDefinition::try_from_name("preferences"), None);
    assert_eq!(SyntaxDefinition::try_from_name(""), None);
    match ConfigDomain::try_from_name("fake?") {
        Err(ConfigError::UnknownDomain(ref name)) if name == "fake?" => (),
        other => panic!("{:?}", other),
    }
}

#[test]
fn domains_from_their_parts() {
    let domain: ConfigDomain = SyntaxDefinition::Swift.into();
    assert_eq!(domain, ConfigDomain::Syntax(SyntaxDefinition::Swift));
    let domain: ConfigDomain = ViewIdentifier(1).into();
    assert_eq!(domain, ConfigDomain::UserOverride(ViewIdentifier(1)));
    assert_ne!(ConfigDomain::UserOverride(ViewIdentifier(1)), ConfigDomain::SysOverride(ViewIdentifier(1)));
    assert_ne!(ConfigDomain::UserOverride(ViewIdentifier(1)), ConfigDomain::UserOverride(ViewIdentifier(2)));
}

#[test]
fn config_files_are_told_by_their_extension() {
    assert!(has_config_extension("/a/rust.xiconfig"));
    assert!(has_config_extension("anything.xiconfig"));
    assert!(!has_config_extension("/a/rust.toml"));
    assert!(!has_config_extension("/a/xiconfig"));
    assert!(!has_config_extension("/a/.xiconfig"));
    assert!(!has_config_extension("/a/rust.XICONFIG"));
}
