//! The default settings of each domain.

use vstd::prelude::*;
use crate::domain::{ConfigDomain, SyntaxDefinition};
use crate::json::{
    no_entries, table_insert, table_model, table_new, value_from_bool, value_from_list,
    value_from_string, value_from_u64, value_models, JsonModel, NumberModel, Table, TableModel,
};

verus! {

/// The general defaults.
pub open spec fn general_defaults() -> TableModel {
    no_entries().insert("tab_size"@, JsonModel::Number(NumberModel::Int(4))).insert(
        "translate_tabs_to_spaces"@,
        JsonModel::Bool(true),
    ).insert("font_face"@, JsonModel::Str("InconsolataGo"@)).insert(
        "font_size"@,
        JsonModel::Number(NumberModel::Int(14)),
    ).insert("line_ending"@, JsonModel::Str("\n"@)).insert(
        "plugin_search_path"@,
        JsonModel::Array(seq![JsonModel::Str("plugins"@)]),
    )
}

/// The defaults for YAML.
pub open spec fn yaml_defaults() -> TableModel {
    no_entries().insert("tab_size"@, JsonModel::Number(NumberModel::Int(2))).insert(
        "translate_tabs_to_spaces"@,
        JsonModel::Bool(true),
    )
}

/// The defaults for makefiles.
pub open spec fn makefile_defaults() -> TableModel {
    no_entries().insert("translate_tabs_to_spaces"@, JsonModel::Bool(false))
}

/// The default settings of `domain`, if it has any.
pub open spec fn defaults_model(domain: ConfigDomain) -> Option<TableModel> {
    match domain {
        ConfigDomain::General => Some(general_defaults()),
        ConfigDomain::Syntax(SyntaxDefinition::Yaml) => Some(yaml_defaults()),
        ConfigDomain::Syntax(SyntaxDefinition::Makefile) => Some(makefile_defaults()),
        _ => None,
    }
}

fn general_table() -> (t: Table)
    ensures
        table_model(t) == general_defaults(),
{
    let mut t = table_new();
    table_insert(&mut t, "tab_size".to_owned(), value_from_u64(4));
    table_insert(&mut t, "translate_tabs_to_spaces".to_owned(), value_from_bool(true));
    table_insert(&mut t, "font_face".to_owned(), value_from_string("InconsolataGo".to_owned()));
    table_insert(&mut t, "font_size".to_owned(), value_from_u64(14));
    table_insert(&mut t, "line_ending".to_owned(), value_from_string("\n".to_owned()));
    let mut dirs: Vec<serde_json::Value> = Vec::new();
    dirs.push(value_from_string("plugins".to_owned()));
    assert(value_models(dirs@) =~= seq![JsonModel::Str("plugins"@)]);
    table_insert(&mut t, "plugin_search_path".to_owned(), value_from_list(dirs));
    t
}

fn yaml_table() -> (t: Table)
    ensures
        table_model(t) == yaml_defaults(),
{
    let mut t = table_new();
    table_insert(&mut t, "tab_size".to_owned(), value_from_u64(2));
    table_insert(&mut t, "translate_tabs_to_spaces".to_owned(), value_from_bool(true));
    t
}

fn makefile_table() -> (t: Table)
    ensures
        table_model(t) == makefile_defaults(),
{
    let mut t = table_new();
    table_insert(&mut t, "translate_tabs_to_spaces".to_owned(), value_from_bool(false));
    t
}

/// Given a domain, returns the default config for that domain, if it exists.
pub fn defaults_for_domain(domain: ConfigDomain) -> (r: Option<Table>)
    ensures
        match r {
            Some(t) => defaults_model(domain) == Some(table_model(t)),
            None => defaults_model(domain) is None,
        },
{
    match domain {
        ConfigDomain::General => Some(general_table()),
        ConfigDomain::Syntax(SyntaxDefinition::Yaml) => Some(yaml_table()),
        ConfigDomain::Syntax(SyntaxDefinition::Makefile) => Some(makefile_table()),
        _ => None,
    }
}

} // verus!
