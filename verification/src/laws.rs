//! What holds of merging, updating, validating and resolving, whatever the
//! settings are.

use vstd::prelude::*;
use crate::chain::{chain_get, changed, collated, diff_of, get_from};
use crate::defaults::defaults_model;
use crate::domain::{ConfigDomain, SyntaxDefinition, ViewIdentifier};
use crate::json::{no_entries, JsonModel, NumberModel, TableModel};
use crate::manager::{
    bind, bound_domain, chain_for, initial_manager, layer, lemma_source_found, resolved_entries,
    source_from, syntax_domain, sys_domain, unbind, user_domain, with_extras, ManagerModel,
};
use crate::model::{applied, entries_of, merged};
use crate::pair::{lemma_fresh_pair_wf, PairModel};
use crate::snapshot::buffer_items_of;
use crate::validator::{legal_keys, top_level_keys};

verus! {

/// Merging gives every key of the defaults and of the user's settings, and
/// the user's value wins where both have one.
pub proof fn law_merge_precedence(base: Option<TableModel>, user: Option<TableModel>, key: Seq<char>)
    ensures
        merged(base, user).contains_key(key) <==> entries_of(base).contains_key(key) || entries_of(
            user,
        ).contains_key(key),
        entries_of(user).contains_key(key) ==> merged(base, user)[key] == entries_of(user)[key],
        !entries_of(user).contains_key(key) && entries_of(base).contains_key(key) ==> merged(
            base,
            user,
        )[key] == entries_of(base)[key],
{
}

/// An update that gives a key as null makes the key revert to the
/// defaults: the snapshot has the default value, or lacks the key where the
/// defaults lack it.
pub proof fn law_update_null_reverts(pair: PairModel, changes: TableModel, key: Seq<char>)
    requires
        changes.contains_key(key),
        changes[key] is Null,
    ensures
        ({
            let after = pair.with_user(applied(entries_of(pair.user), changes));
            &&& !after.user.unwrap().contains_key(key)
            &&& after.cache.contains_key(key) <==> entries_of(pair.base).contains_key(key)
            &&& after.cache.contains_key(key) ==> after.cache[key] == entries_of(pair.base)[key]
        }),
{
}

/// An update sets the keys that it gives a value other than null, and
/// leaves the user's settings for every other key as they were.
pub proof fn law_update_merges(pair: PairModel, changes: TableModel, key: Seq<char>)
    ensures
        ({
            let before = entries_of(pair.user);
            let after = pair.with_user(applied(before, changes));
            &&& changes.contains_key(key) && !(changes[key] is Null) ==> after.user.unwrap().contains_key(
                key,
            ) && after.user.unwrap()[key] == changes[key] && after.cache[key] == changes[key]
            &&& !changes.contains_key(key) ==> (after.user.unwrap().contains_key(key)
                <==> before.contains_key(key))
            &&& !changes.contains_key(key) && before.contains_key(key) ==> after.user.unwrap()[key]
                == before[key]
        }),
{
}

/// Replacing or updating the user's settings leaves the snapshot up to
/// date.
pub proof fn law_snapshot_never_stale(pair: PairModel, user: TableModel)
    ensures
        pair.with_user(user).wf(),
        pair.with_user(user).base == pair.base,
        pair.with_user(user).legal == pair.legal,
{
}

/// A chain resolves a key to the value of the first table that holds it,
/// and to nothing exactly when no table holds it.
pub proof fn law_get_is_first_match(chain: Seq<TableModel>, key: Seq<char>, from: int)
    requires
        0 <= from,
    ensures
        get_from(chain, key, from) is None <==> forall|i: int|
            from <= i < chain.len() ==> !(#[trigger] chain[i]).contains_key(key),
        get_from(chain, key, from) matches Some(v) ==> exists|i: int|
            from <= i < chain.len() && (#[trigger] chain[i]).contains_key(key) && chain[i][key] == v
                && forall|j: int| from <= j < i ==> !(#[trigger] chain[j]).contains_key(key),
    decreases chain.len() - from,
{
    if from < chain.len() {
        if chain[from].contains_key(key) {
            assert(from <= from < chain.len() && chain[from].contains_key(key));
        } else {
            law_get_is_first_match(chain, key, from + 1);
            if get_from(chain, key, from + 1) is Some {
                let v = get_from(chain, key, from + 1).unwrap();
                let i = choose|i: int|
                    from + 1 <= i < chain.len() && (#[trigger] chain[i]).contains_key(key)
                        && chain[i][key] == v && forall|j: int|
                        from + 1 <= j < i ==> !(#[trigger] chain[j]).contains_key(key);
                assert(from <= i < chain.len() && chain[i].contains_key(key) && chain[i][key] == v);
                assert forall|j: int| from <= j < i implies !(#[trigger] chain[j]).contains_key(
                    key,
                ) by {}
            }
        }
    }
}

/// A domain in use resolves a key that it gives to its own value, alone in
/// a chain.
pub proof fn law_layer_resolves(pairs: Map<ConfigDomain, PairModel>, domain: ConfigDomain, key: Seq<char>)
    ensures
        chain_get(layer(pairs, Some(domain)), key) == (if pairs.contains_key(domain)
            && pairs[domain].cache.contains_key(key) {
            Some(pairs[domain].cache[key])
        } else {
            None
        }),
{
    let chain = layer(pairs, Some(domain));
    if pairs.contains_key(domain) {
        assert(chain.len() == 1);
        assert(get_from(chain, key, 1) is None);
    }
}

/// Resolving in two chains put end to end: the first decides where it
/// gives the key.
pub proof fn lemma_get_concat(first: Seq<TableModel>, second: Seq<TableModel>, key: Seq<char>)
    ensures
        chain_get(first + second, key) == (if chain_get(first, key) is Some {
            chain_get(first, key)
        } else {
            chain_get(second, key)
        }),
{
    lemma_get_concat_from(first, second, key, 0);
}

proof fn lemma_get_shift(first: Seq<TableModel>, second: Seq<TableModel>, key: Seq<char>, from: int)
    requires
        0 <= from,
    ensures
        get_from(first + second, key, first.len() + from) == get_from(second, key, from),
    decreases second.len() - from,
{
    if from < second.len() {
        assert((first + second)[first.len() + from] == second[from]);
        lemma_get_shift(first, second, key, from + 1);
    }
}

proof fn lemma_get_concat_from(
    first: Seq<TableModel>,
    second: Seq<TableModel>,
    key: Seq<char>,
    from: int,
)
    requires
        0 <= from <= first.len(),
    ensures
        get_from(first + second, key, from) == (if get_from(first, key, from) is Some {
            get_from(first, key, from)
        } else {
            chain_get(second, key)
        }),
    decreases first.len() - from,
{
    if from < first.len() {
        assert((first + second)[from] == first[from]);
        lemma_get_concat_from(first, second, key, from + 1);
    } else {
        lemma_get_shift(first, second, key, 0);
    }
}

/// A set or an update that is refused leaves every user table as it was,
/// and every buffer resolves to what it resolved to before.
pub proof fn law_refusal_changes_nothing(
    manager: ManagerModel,
    domain: ConfigDomain,
    syntax: Option<SyntaxDefinition>,
    view_id: Option<ViewIdentifier>,
    other: ConfigDomain,
)
    requires
        manager.wf(),
    ensures
        manager.with_domain(domain).wf(),
        manager.with_domain(domain).user_of(other) == manager.user_of(other),
        collated(chain_for(manager.with_domain(domain).pairs, syntax, view_id)) == collated(
            chain_for(manager.pairs, syntax, view_id),
        ),
        manager.with_domain(domain).sources == manager.sources,
{
    lemma_fresh_pair_wf(domain);
    let after = manager.with_domain(domain).pairs;
    let before = manager.pairs;
    assert forall|d: Option<ConfigDomain>, k: Seq<char>|
        #[trigger] chain_get(layer(after, d), k) == chain_get(layer(before, d), k) by {
        match d {
            Some(dd) => {
                law_layer_resolves(after, dd, k);
                law_layer_resolves(before, dd, k);
            },
            None => {},
        }
    }
    assert forall|k: Seq<char>|
        #[trigger] chain_get(chain_for(after, syntax, view_id), k) == chain_get(
            chain_for(before, syntax, view_id),
            k,
        ) by {
        law_precedence(after, syntax, view_id, k);
        law_precedence(before, syntax, view_id, k);
    }
    assert(collated(chain_for(after, syntax, view_id)) =~= collated(
        chain_for(before, syntax, view_id),
    ));
}

/// The precedence chain of a buffer resolves a key to the value of the
/// most specific domain in use that gives the key: the view's user
/// overrides come before the view's system overrides, these before the
/// syntax, and the syntax before the general settings.
pub proof fn law_precedence(
    pairs: Map<ConfigDomain, PairModel>,
    syntax: Option<SyntaxDefinition>,
    view_id: Option<ViewIdentifier>,
    key: Seq<char>,
)
    ensures
        ({
            let user = layer(pairs, user_domain(view_id));
            let sys = layer(pairs, sys_domain(view_id));
            let syn = layer(pairs, syntax_domain(syntax));
            let general = layer(pairs, Some(ConfigDomain::General));
            chain_get(chain_for(pairs, syntax, view_id), key) == (if chain_get(user, key) is Some {
                chain_get(user, key)
            } else if chain_get(sys, key) is Some {
                chain_get(sys, key)
            } else if chain_get(syn, key) is Some {
                chain_get(syn, key)
            } else {
                chain_get(general, key)
            })
        }),
{
    let user = layer(pairs, user_domain(view_id));
    let sys = layer(pairs, sys_domain(view_id));
    let syn = layer(pairs, syntax_domain(syntax));
    let general = layer(pairs, Some(ConfigDomain::General));
    lemma_get_concat(user, sys + syn + general, key);
    lemma_get_concat(sys, syn + general, key);
    lemma_get_concat(syn, general, key);
    assert(chain_for(pairs, syntax, view_id) =~= user + (sys + syn + general));
    assert(sys + syn + general =~= sys + (syn + general));
}

/// A key that is only legal at the top level is legal in the general
/// domain and in no other.
pub proof fn law_top_level_keys_are_general_only(domain: ConfigDomain, key: Seq<char>)
    requires
        top_level_keys().contains(key),
    ensures
        legal_keys(domain).contains(key) <==> domain == ConfigDomain::General,
{
    lemma_keys_differ();
}

/// After a file is loaded into a domain and then unloaded, the domain has
/// no user settings and its snapshot is its defaults.
pub proof fn law_unload_restores_defaults(
    manager: ManagerModel,
    domain: ConfigDomain,
    user: TableModel,
    path: Seq<char>,
)
    requires
        manager.wf(),
    ensures
        ({
            let loaded = manager.with_user(domain, user).with_source(Some(path), domain);
            let unloaded = (ManagerModel {
                sources: unbind(loaded.sources, path),
                ..loaded
            }).with_user(domain, no_entries());
            &&& bound_domain(loaded.sources, path) == Some(domain)
            &&& unloaded.user_of(domain) == no_entries()
            &&& unloaded.pairs[domain].cache == entries_of(defaults_model(domain))
            &&& unloaded.wf()
        }),
{
    lemma_fresh_pair_wf(domain);
    let loaded = manager.with_user(domain, user).with_source(Some(path), domain);
    lemma_bound_after_bind(manager.sources, path, domain);
    let unloaded = (ManagerModel { sources: unbind(loaded.sources, path), ..loaded }).with_user(
        domain,
        no_entries(),
    );
    assert(unloaded.pairs[domain].cache =~= entries_of(defaults_model(domain)));
}

/// A path is bound to the domain that it was last loaded into.
pub proof fn lemma_bound_after_bind(
    sources: Seq<(Seq<char>, ConfigDomain)>,
    path: Seq<char>,
    domain: ConfigDomain,
)
    ensures
        bound_domain(bind(sources, path, domain), path) == Some(domain),
{
    lemma_source_after_bind(sources, path, domain, 0);
}

proof fn lemma_source_after_bind(
    sources: Seq<(Seq<char>, ConfigDomain)>,
    path: Seq<char>,
    domain: ConfigDomain,
    from: int,
)
    requires
        0 <= from <= sources.len(),
        source_from(sources, path, 0) == source_from(sources, path, from),
    ensures
        source_from(bind(sources, path, domain), path, from) matches Some(i) && bind(
            sources,
            path,
            domain,
        )[i].1 == domain,
    decreases sources.len() - from,
{
    let bound = bind(sources, path, domain);
    lemma_source_found(sources, path, from);
    match source_from(sources, path, 0) {
        Some(i) => {
            if from == i {
                assert(bound[from].0 == sources[from].0);
            } else {
                assert(bound[from] == sources[from]);
                lemma_source_after_bind(sources, path, domain, from + 1);
            }
        },
        None => {
            if from < sources.len() {
                assert(bound[from] == sources[from]);
                lemma_source_after_bind(sources, path, domain, from + 1);
            } else {
                assert(bound[from] == (path, domain));
            }
        },
    }
}

/// A chain does not differ from itself.
pub proof fn law_no_diff_from_itself(chain: Seq<TableModel>)
    ensures
        diff_of(chain, chain) is None,
{
    assert(changed(chain, chain) =~= no_entries());
}

/// The diff holds exactly the keys that the current chain resolves
/// otherwise than the previous one, each with its current value.
pub proof fn law_diff_holds_changes(
    current: Seq<TableModel>,
    previous: Seq<TableModel>,
    key: Seq<char>,
)
    ensures
        diff_of(current, previous) is None <==> forall|k: Seq<char>|
            collated(current).contains_key(k) ==> #[trigger] chain_get(previous, k) == Some(
                collated(current)[k],
            ),
        diff_of(current, previous) matches Some(diff) ==> (diff.contains_key(key) <==> collated(
            current,
        ).contains_key(key) && chain_get(previous, key) != Some(collated(current)[key])),
        diff_of(current, previous) matches Some(diff) ==> diff.contains_key(key) ==> diff[key]
            == collated(current)[key],
{
    let all = changed(current, previous);
    if diff_of(current, previous) is None {
        assert forall|k: Seq<char>| collated(current).contains_key(k) implies #[trigger] chain_get(
            previous,
            k,
        ) == Some(collated(current)[k]) by {
            assert(!all.contains_key(k));
        }
    } else {
        if forall|k: Seq<char>|
            collated(current).contains_key(k) ==> #[trigger] chain_get(previous, k) == Some(
                collated(current)[k],
            ) {
            assert forall|k: Seq<char>| !all.contains_key(k) by {
                if chain_get(current, k) is Some {
                    assert(collated(current).contains_key(k));
                }
            }
            assert(all =~= no_entries());
        }
    }
}

/// The keys of the settings are six different texts.
pub proof fn lemma_keys_differ()
    ensures
        "tab_size"@ != "translate_tabs_to_spaces"@,
        "tab_size"@ != "font_face"@,
        "tab_size"@ != "font_size"@,
        "tab_size"@ != "line_ending"@,
        "tab_size"@ != "plugin_search_path"@,
        "translate_tabs_to_spaces"@ != "font_face"@,
        "translate_tabs_to_spaces"@ != "font_size"@,
        "translate_tabs_to_spaces"@ != "line_ending"@,
        "translate_tabs_to_spaces"@ != "plugin_search_path"@,
        "font_face"@ != "font_size"@,
        "font_face"@ != "line_ending"@,
        "font_face"@ != "plugin_search_path"@,
        "font_size"@ != "line_ending"@,
        "font_size"@ != "plugin_search_path"@,
        "line_ending"@ != "plugin_search_path"@,
{
    reveal_strlit("tab_size");
    reveal_strlit("translate_tabs_to_spaces");
    reveal_strlit("font_face");
    reveal_strlit("font_size");
    reveal_strlit("line_ending");
    reveal_strlit("plugin_search_path");
    assert("tab_size"@.len() == 8);
    assert("translate_tabs_to_spaces"@.len() == 24);
    assert("font_face"@.len() == 9);
    assert("font_size"@.len() == 9);
    assert("line_ending"@.len() == 11);
    assert("plugin_search_path"@.len() == 18);
    assert("font_face"@[5] != "font_size"@[5]);
}

/// Before any user settings are given, every buffer resolves to settings
/// of the right types, whatever its syntax and view: the defaults give them
/// all. The search path is then the one default entry.
pub proof fn law_defaults_give_every_setting(
    syntax: Option<SyntaxDefinition>,
    view_id: Option<ViewIdentifier>,
)
    ensures
        initial_manager().wf(),
        buffer_items_of(collated(chain_for(initial_manager().pairs, syntax, view_id))) is Some,
        buffer_items_of(collated(chain_for(initial_manager().pairs, None, None))).unwrap().tab_size
            == 4,
        initial_manager().search_entries() == Some(seq!["plugins"@]),
{
    lemma_keys_differ();
    lemma_fresh_pair_wf(ConfigDomain::General);
    lemma_fresh_pair_wf(ConfigDomain::Syntax(SyntaxDefinition::Yaml));
    lemma_fresh_pair_wf(ConfigDomain::Syntax(SyntaxDefinition::Makefile));
    let pairs = initial_manager().pairs;
    let chain = chain_for(pairs, syntax, view_id);
    let keys = seq![
        "line_ending"@,
        "tab_size"@,
        "translate_tabs_to_spaces"@,
        "font_face"@,
        "font_size"@,
    ];
    assert forall|i: int| 0 <= i < keys.len() implies ({
        let k = #[trigger] keys[i];
        let v = chain_get(chain, k);
        &&& v is Some
        &&& (k == "tab_size"@ ==> v == Some(JsonModel::Number(NumberModel::Int(4))) || v == Some(
            JsonModel::Number(NumberModel::Int(2)),
        ))
        &&& (k == "translate_tabs_to_spaces"@ ==> v.unwrap() is Bool)
        &&& (k == "line_ending"@ || k == "font_face"@ ==> v.unwrap() is Str)
        &&& (k == "font_size"@ ==> v.unwrap() is Number)
    }) by {
        let k = keys[i];
        law_precedence(pairs, syntax, view_id, k);
        law_layer_resolves(pairs, ConfigDomain::General, k);
        match view_id {
            Some(v) => {
                law_layer_resolves(pairs, ConfigDomain::UserOverride(v), k);
                law_layer_resolves(pairs, ConfigDomain::SysOverride(v), k);
            },
            None => {},
        }
        match syntax {
            Some(s) => {
                law_layer_resolves(pairs, ConfigDomain::Syntax(s), k);
            },
            None => {},
        }
    }
    assert(keys[0] == "line_ending"@);
    assert(keys[1] == "tab_size"@);
    assert(keys[2] == "translate_tabs_to_spaces"@);
    assert(keys[3] == "font_face"@);
    assert(keys[4] == "font_size"@);
    law_precedence(pairs, None, None, "tab_size"@);
    law_layer_resolves(pairs, ConfigDomain::General, "tab_size"@);
    let entries = seq![JsonModel::Str("plugins"@)];
    assert(Seq::new(entries.len(), |i: int| crate::json::text_of(entries[i])) =~= seq![
        "plugins"@,
    ]);
}

/// The extras directory, if one is set, is the last entry of the search
/// path, whether or not a config directory is set; without a config
/// directory the entries before it are as the settings give them.
pub proof fn law_extras_come_last(
    entries: Seq<Seq<char>>,
    config_dir: Option<Seq<char>>,
    extras_dir: Seq<char>,
)
    ensures
        with_extras(resolved_entries(entries, config_dir), Some(extras_dir)).len() == entries.len()
            + 1,
        with_extras(resolved_entries(entries, config_dir), Some(extras_dir)).last() == extras_dir,
        with_extras(resolved_entries(entries, None), Some(extras_dir)) == entries.push(extras_dir),
{
}

} // verus!
