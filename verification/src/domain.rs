//! The scopes that settings belong to.

use vstd::prelude::*;
use crate::error::{ConfigError, ConfigErrorModel};
use crate::paths::{path_file_stem, path_file_stem_of};
use crate::text::same_text;

verus! {

/// The languages that settings can be given for.
#[derive(Debug, Clone, Copy, PartialEq, Eq, Hash, Structural)]
pub enum SyntaxDefinition {
    Plaintext,
    Markdown,
    Python,
    Rust,
    C,
    Go,
    Dart,
    Swift,
    Toml,
    Json,
    Yaml,
    Cpp,
    Objc,
    Shell,
    Ruby,
    Javascript,
    Java,
    Php,
    Perl,
    Makefile,
}

/// The identifier of a view onto a buffer.
#[derive(Debug, Clone, Copy, PartialEq, Eq, Hash, Structural)]
pub struct ViewIdentifier(pub usize);

/// A `ConfigDomain` describes a level or category of user settings.
#[derive(Debug, Clone, Copy, PartialEq, Eq, Hash, Structural)]
pub enum ConfigDomain {
    /// The general user preferences.
    General,
    /// The overrides for a particular syntax.
    Syntax(SyntaxDefinition),
    /// The user overrides for a particular buffer.
    UserOverride(ViewIdentifier),
    /// The system's overrides for a particular buffer. Only used internally.
    SysOverride(ViewIdentifier),
}

/// The syntax that a language name, as used in a config file's name,
/// stands for.
pub open spec fn syntax_named(name: Seq<char>) -> Option<SyntaxDefinition> {
    if name == "rust"@ {
        Some(SyntaxDefinition::Rust)
    } else if name == "markdown"@ {
        Some(SyntaxDefinition::Markdown)
    } else if name == "python"@ {
        Some(SyntaxDefinition::Python)
    } else if name == "c"@ {
        Some(SyntaxDefinition::C)
    } else if name == "go"@ {
        Some(SyntaxDefinition::Go)
    } else if name == "dart"@ {
        Some(SyntaxDefinition::Dart)
    } else if name == "swift"@ {
        Some(SyntaxDefinition::Swift)
    } else if name == "toml"@ {
        Some(SyntaxDefinition::Toml)
    } else if name == "json"@ {
        Some(SyntaxDefinition::Json)
    } else if name == "yaml"@ {
        Some(SyntaxDefinition::Yaml)
    } else if name == "cpp"@ {
        Some(SyntaxDefinition::Cpp)
    } else if name == "objc"@ {
        Some(SyntaxDefinition::Objc)
    } else if name == "shell"@ {
        Some(SyntaxDefinition::Shell)
    } else if name == "ruby"@ {
        Some(SyntaxDefinition::Ruby)
    } else if name == "javascript"@ {
        Some(SyntaxDefinition::Javascript)
    } else if name == "java"@ {
        Some(SyntaxDefinition::Java)
    } else if name == "php"@ {
        Some(SyntaxDefinition::Php)
    } else if name == "perl"@ {
        Some(SyntaxDefinition::Perl)
    } else if name == "makefile"@ {
        Some(SyntaxDefinition::Makefile)
    } else {
        None
    }
}

/// The domain that the stem of a config file's name stands for:
/// `preferences` is the general domain, a language name that of its syntax.
pub open spec fn domain_named(stem: Seq<char>) -> Option<ConfigDomain> {
    if stem == "preferences"@ {
        Some(ConfigDomain::General)
    } else {
        match syntax_named(stem) {
            Some(syntax) => Some(ConfigDomain::Syntax(syntax)),
            None => None,
        }
    }
}

impl From<SyntaxDefinition> for ConfigDomain {
    fn from(src: SyntaxDefinition) -> (r: ConfigDomain) {
        ConfigDomain::Syntax(src)
    }
}

impl vstd::std_specs::convert::FromSpecImpl<SyntaxDefinition> for ConfigDomain {
    open spec fn obeys_from_spec() -> bool {
        true
    }

    open spec fn from_spec(src: SyntaxDefinition) -> ConfigDomain {
        ConfigDomain::Syntax(src)
    }
}

impl From<ViewIdentifier> for ConfigDomain {
    fn from(src: ViewIdentifier) -> (r: ConfigDomain) {
        ConfigDomain::UserOverride(src)
    }
}

impl vstd::std_specs::convert::FromSpecImpl<ViewIdentifier> for ConfigDomain {
    open spec fn obeys_from_spec() -> bool {
        true
    }

    open spec fn from_spec(src: ViewIdentifier) -> ConfigDomain {
        ConfigDomain::UserOverride(src)
    }
}

impl SyntaxDefinition {
    /// Given a language name (as used in a config file's name), returns the
    /// corresponding syntax.
    pub fn try_from_name(name: &str) -> (r: Option<SyntaxDefinition>)
        ensures
            r == syntax_named(name@),
    {
        if same_text(name, "rust") {
            Some(SyntaxDefinition::Rust)
        } else if same_text(name, "markdown") {
            Some(SyntaxDefinition::Markdown)
        } else if same_text(name, "python") {
            Some(SyntaxDefinition::Python)
        } else if same_text(name, "c") {
            Some(SyntaxDefinition::C)
        } else if same_text(name, "go") {
            Some(SyntaxDefinition::Go)
        } else if same_text(name, "dart") {
            Some(SyntaxDefinition::Dart)
        } else if same_text(name, "swift") {
            Some(SyntaxDefinition::Swift)
        } else if same_text(name, "toml") {
            Some(SyntaxDefinition::Toml)
        } else if same_text(name, "json") {
            Some(SyntaxDefinition::Json)
        } else if same_text(name, "yaml") {
            Some(SyntaxDefinition::Yaml)
        } else if same_text(name, "cpp") {
            Some(SyntaxDefinition::Cpp)
        } else if same_text(name, "objc") {
            Some(SyntaxDefinition::Objc)
        } else if same_text(name, "shell") {
            Some(SyntaxDefinition::Shell)
        } else if same_text(name, "ruby") {
            Some(SyntaxDefinition::Ruby)
        } else if same_text(name, "javascript") {
            Some(SyntaxDefinition::Javascript)
        } else if same_text(name, "java") {
            Some(SyntaxDefinition::Java)
        } else if same_text(name, "php") {
            Some(SyntaxDefinition::Php)
        } else if same_text(name, "perl") {
            Some(SyntaxDefinition::Perl)
        } else if same_text(name, "makefile") {
            Some(SyntaxDefinition::Makefile)
        } else {
            None
        }
    }
}

impl ConfigDomain {
    /// Parses the stem of a config file's name into a `ConfigDomain`.
    /// Fails with `UnknownDomain` if the stem does not correspond to a domain.
    pub fn try_from_name(stem: &str) -> (r: Result<ConfigDomain, ConfigError>)
        ensures
            match r {
                Ok(domain) => domain_named(stem@) == Some(domain),
                Err(e) => domain_named(stem@) is None && e@ == ConfigErrorModel::UnknownDomain(
                    stem@,
                ),
            },
    {
        if same_text(stem, "preferences") {
            Ok(ConfigDomain::General)
        } else {
            match SyntaxDefinition::try_from_name(stem) {
                Some(syntax) => Ok(ConfigDomain::Syntax(syntax)),
                None => Err(ConfigError::UnknownDomain(stem.to_owned())),
            }
        }
    }

    /// Given a file path, attempts to parse the file name into a
    /// `ConfigDomain`. Fails if the file name does not correspond to a
    /// domain. The path must name a file.
    pub fn try_from_path(path: &str) -> (r: Result<ConfigDomain, ConfigError>)
        requires
            path_file_stem_of(path@) is Some,
        ensures
            match r {
                Ok(domain) => domain_named(path_file_stem_of(path@).unwrap()) == Some(domain),
                Err(e) => domain_named(path_file_stem_of(path@).unwrap()) is None && e@
                    == ConfigErrorModel::UnknownDomain(path_file_stem_of(path@).unwrap()),
            },
    {
        match path_file_stem(path) {
            Some(stem) => ConfigDomain::try_from_name(stem.as_str()),
            None => Err(ConfigError::UnknownDomain(String::new())),
        }
    }
}

} // verus!
