//! The settings of all domains in use, and what they resolve to for a
//! buffer.

use vstd::prelude::*;
use std::sync::Arc;
use crate::chain::collated;
use crate::defaults::defaults_model;
use crate::domain::{domain_named, ConfigDomain, SyntaxDefinition, ViewIdentifier};
use crate::error::{outcome, ConfigError};
use crate::json::{
    key_texts, no_entries, string_list_of, table_get, table_key_order, table_model, table_new,
    table_share, value_string_list, Table, TableModel,
};
use crate::pair::{fresh_pair, lemma_fresh_pair_wf, ConfigPair, PairModel};
use crate::paths::{
    has_config_extension, is_config_file, path_eq, path_file_stem, path_file_stem_of, path_join,
    path_joined, path_parent, path_parent_of, same_path,
};
use crate::snapshot::{buffer_items_of, BufferConfig};
use crate::stack::{tables_model, TableStack};
use crate::text::opt_text;
use crate::validator::{legal_keys, validation_of};

verus! {

/// The pairs of the domains in use, with the pair of `domain` among them:
/// a fresh one if the domain was not in use.
pub open spec fn with_pair(pairs: Map<ConfigDomain, PairModel>, domain: ConfigDomain) -> Map<
    ConfigDomain,
    PairModel,
> {
    if pairs.contains_key(domain) {
        pairs
    } else {
        pairs.insert(domain, fresh_pair(domain))
    }
}

/// Whether a stored path and `path` name the same file: they do when they
/// are the same text, or made of the same components.
pub open spec fn names_same_file(stored: Seq<char>, path: Seq<char>) -> bool {
    stored == path || same_path(stored, path)
}

/// The position of the first source, from `from` on, whose path is `path`.
pub open spec fn source_from(sources: Seq<(Seq<char>, ConfigDomain)>, path: Seq<char>, from: int)
    -> Option<int>
    decreases sources.len() - from,
{
    if from < 0 || from >= sources.len() {
        None
    } else if names_same_file(sources[from].0, path) {
        Some(from)
    } else {
        source_from(sources, path, from + 1)
    }
}

/// The domain that the file at `path` was loaded into, if it was loaded.
pub open spec fn bound_domain(sources: Seq<(Seq<char>, ConfigDomain)>, path: Seq<char>) -> Option<
    ConfigDomain,
> {
    match source_from(sources, path, 0) {
        Some(i) => Some(sources[i].1),
        None => None,
    }
}

/// The sources after the file at `path` is loaded into `domain`: a path
/// that was bound before is bound anew.
pub open spec fn bind(sources: Seq<(Seq<char>, ConfigDomain)>, path: Seq<char>, domain: ConfigDomain)
    -> Seq<(Seq<char>, ConfigDomain)> {
    match source_from(sources, path, 0) {
        Some(i) => sources.update(i, (sources[i].0, domain)),
        None => sources.push((path, domain)),
    }
}

/// The sources without the file at `path`.
pub open spec fn unbind(sources: Seq<(Seq<char>, ConfigDomain)>, path: Seq<char>) -> Seq<
    (Seq<char>, ConfigDomain),
> {
    match source_from(sources, path, 0) {
        Some(i) => sources.remove(i),
        None => sources,
    }
}

/// The snapshot of `domain`, if there is a domain and it is in use.
pub open spec fn layer(pairs: Map<ConfigDomain, PairModel>, domain: Option<ConfigDomain>) -> Seq<
    TableModel,
> {
    match domain {
        Some(d) => if pairs.contains_key(d) {
            seq![pairs[d].cache]
        } else {
            Seq::empty()
        },
        None => Seq::empty(),
    }
}

/// The user override domain of a view, if there is a view.
pub open spec fn user_domain(view_id: Option<ViewIdentifier>) -> Option<ConfigDomain> {
    match view_id {
        Some(v) => Some(ConfigDomain::UserOverride(v)),
        None => None,
    }
}

/// The system override domain of a view, if there is a view.
pub open spec fn sys_domain(view_id: Option<ViewIdentifier>) -> Option<ConfigDomain> {
    match view_id {
        Some(v) => Some(ConfigDomain::SysOverride(v)),
        None => None,
    }
}

/// The domain of a syntax, if there is a syntax.
pub open spec fn syntax_domain(syntax: Option<SyntaxDefinition>) -> Option<ConfigDomain> {
    match syntax {
        Some(s) => Some(ConfigDomain::Syntax(s)),
        None => None,
    }
}

/// The precedence chain for a buffer, most specific domain first: the
/// view's user overrides, the view's system overrides, the syntax, and the
/// general settings; only domains in use take part.
pub open spec fn chain_for(
    pairs: Map<ConfigDomain, PairModel>,
    syntax: Option<SyntaxDefinition>,
    view_id: Option<ViewIdentifier>,
) -> Seq<TableModel> {
    layer(pairs, user_domain(view_id)) + layer(pairs, sys_domain(view_id)) + layer(
        pairs,
        syntax_domain(syntax),
    ) + layer(pairs, Some(ConfigDomain::General))
}

/// The entries of the search path with relative ones resolved against the
/// config directory, if there is one.
pub open spec fn resolved_entries(entries: Seq<Seq<char>>, config_dir: Option<Seq<char>>) -> Seq<
    Seq<char>,
> {
    match config_dir {
        Some(dir) => Seq::new(entries.len(), |i: int| path_joined(dir, entries[i])),
        None => entries,
    }
}

/// A list with the extras directory, if there is one, appended.
pub open spec fn with_extras(paths: Seq<Seq<char>>, extras_dir: Option<Seq<char>>) -> Seq<
    Seq<char>,
> {
    match extras_dir {
        Some(dir) => paths.push(dir),
        None => paths,
    }
}

/// Whether the file at `path` is a config file in the config directory
/// itself: it has the extension of config files, its name is that of a
/// domain, and its parent is the config directory.
pub open spec fn should_load(config_dir: Option<Seq<char>>, path: Seq<char>) -> bool {
    &&& is_config_file(path)
    &&& path_file_stem_of(path) matches Some(stem) && domain_named(stem) is Some
    &&& config_dir matches Some(dir) && (path_parent_of(path) matches Some(parent) && same_path(
        dir,
        parent,
    ))
}

/// What a `ConfigManager` stands for.
pub struct ManagerModel {
    /// The pair of each domain in use.
    pub pairs: Map<ConfigDomain, PairModel>,
    /// The files that were loaded, each with the domain it was loaded into.
    pub sources: Seq<(Seq<char>, ConfigDomain)>,
    /// The base config directory.
    pub config_dir: Option<Seq<char>>,
    /// The directory of bundled resources.
    pub extras_dir: Option<Seq<char>>,
}

impl ManagerModel {
    /// Every domain that has defaults is in use, the general domain among
    /// them, and every pair in use has the defaults and the legal keys of
    /// its domain and an up-to-date snapshot.
    pub open spec fn wf(self) -> bool {
        &&& forall|d: ConfigDomain|
            defaults_model(d) is Some ==> #[trigger] self.pairs.contains_key(d)
        &&& forall|d: ConfigDomain| #[trigger]
            self.pairs.contains_key(d) ==> self.pairs[d].wf() && self.pairs[d].base
                == defaults_model(d) && self.pairs[d].legal == legal_keys(d)
    }

    /// The manager with `domain` in use.
    pub open spec fn with_domain(self, domain: ConfigDomain) -> ManagerModel {
        ManagerModel { pairs: with_pair(self.pairs, domain), ..self }
    }

    /// The manager with the user settings of `domain` replaced by `user`.
    pub open spec fn with_user(self, domain: ConfigDomain, user: TableModel) -> ManagerModel {
        ManagerModel {
            pairs: with_pair(self.pairs, domain).insert(
                domain,
                with_pair(self.pairs, domain)[domain].with_user(user),
            ),
            ..self
        }
    }

    /// The manager with the file at `path`, if there is one, loaded into
    /// `domain`.
    pub open spec fn with_source(self, path: Option<Seq<char>>, domain: ConfigDomain) -> ManagerModel {
        match path {
            Some(p) => ManagerModel { sources: bind(self.sources, p, domain), ..self },
            None => self,
        }
    }

    /// The user settings of `domain`: none where the domain is not in use.
    pub open spec fn user_of(self, domain: ConfigDomain) -> TableModel {
        crate::model::entries_of(with_pair(self.pairs, domain)[domain].user)
    }

    /// The entries of the search path as the general settings give them,
    /// if they give a list of strings.
    pub open spec fn search_entries(self) -> Option<Seq<Seq<char>>> {
        if self.pairs.contains_key(ConfigDomain::General) && self.pairs[ConfigDomain::General].cache.contains_key(
            "plugin_search_path"@,
        ) {
            string_list_of(self.pairs[ConfigDomain::General].cache["plugin_search_path"@])
        } else {
            None
        }
    }
}

/// The manager as it starts: the domains that have defaults are in use,
/// without user settings; no file is loaded and no directory is set.
pub open spec fn initial_manager() -> ManagerModel {
    ManagerModel {
        pairs: Map::<ConfigDomain, PairModel>::empty().insert(
            ConfigDomain::General,
            fresh_pair(ConfigDomain::General),
        ).insert(
            ConfigDomain::Syntax(SyntaxDefinition::Yaml),
            fresh_pair(ConfigDomain::Syntax(SyntaxDefinition::Yaml)),
        ).insert(
            ConfigDomain::Syntax(SyntaxDefinition::Makefile),
            fresh_pair(ConfigDomain::Syntax(SyntaxDefinition::Makefile)),
        ),
        sources: Seq::empty(),
        config_dir: None,
        extras_dir: None,
    }
}

/// The settings of a domain in use.
struct DomainEntry {
    domain: ConfigDomain,
    pair: ConfigPair,
}

/// A file that was loaded, with the domain it was loaded into.
struct SourceEntry {
    path: String,
    domain: ConfigDomain,
}

/// The position of the first entry for `domain`, from `from` on.
spec fn entry_from(configs: Seq<DomainEntry>, domain: ConfigDomain, from: int) -> Option<
    int,
>
    decreases configs.len() - from,
{
    if from < 0 || from >= configs.len() {
        None
    } else if configs[from].domain == domain {
        Some(from)
    } else {
        entry_from(configs, domain, from + 1)
    }
}

/// The pair of each domain that has an entry.
spec fn pairs_of(configs: Seq<DomainEntry>) -> Map<ConfigDomain, PairModel> {
    Map::new(
        |d: ConfigDomain| entry_from(configs, d, 0) is Some,
        |d: ConfigDomain| configs[entry_from(configs, d, 0).unwrap()].pair@,
    )
}

/// What a list of sources stands for.
spec fn sources_of(sources: Seq<SourceEntry>) -> Seq<(Seq<char>, ConfigDomain)> {
    Seq::new(sources.len(), |i: int| (sources[i].path@, sources[i].domain))
}

/// Keeps the settings of every domain in use, and resolves them for a
/// buffer.
pub struct ConfigManager {
    /// The `ConfigPair`s (defaults + overrides) of all in-use domains.
    configs: Vec<DomainEntry>,
    /// The paths of the file based configs that were loaded.
    sources: Vec<SourceEntry>,
    /// If using file-based config, this is the base config directory.
    config_dir: Option<String>,
    /// An optional client-provided path for bundled resources, such as
    /// plugins and themes.
    extras_dir: Option<String>,
}

impl View for ConfigManager {
    type V = ManagerModel;

    closed spec fn view(&self) -> ManagerModel {
        ManagerModel {
            pairs: pairs_of(self.configs@),
            sources: sources_of(self.sources@),
            config_dir: opt_text(self.config_dir),
            extras_dir: opt_text(self.extras_dir),
        }
    }
}

/// Looking a domain up after an entry is added at the end.
proof fn lemma_entry_push(configs: Seq<DomainEntry>, entry: DomainEntry, domain: ConfigDomain, from: int)
    requires
        0 <= from <= configs.len(),
    ensures
        entry_from(configs.push(entry), domain, from) == (match entry_from(configs, domain, from) {
            Some(i) => Some(i),
            None => if entry.domain == domain {
                Some(configs.len() as int)
            } else {
                None
            },
        }),
    decreases configs.len() - from,
{
    if from < configs.len() {
        assert(configs.push(entry)[from] == configs[from]);
        if configs[from].domain != domain {
            lemma_entry_push(configs, entry, domain, from + 1);
        }
    } else {
        assert(configs.push(entry)[from] == entry);
        assert(entry_from(configs.push(entry), domain, from + 1) is None);
    }
}

/// Looking a domain up after an entry is replaced by one for the same
/// domain.
proof fn lemma_entry_update(
    configs: Seq<DomainEntry>,
    at: int,
    entry: DomainEntry,
    domain: ConfigDomain,
    from: int,
)
    requires
        0 <= at < configs.len(),
        0 <= from,
        entry.domain == configs[at].domain,
    ensures
        entry_from(configs.update(at, entry), domain, from) == entry_from(configs, domain, from),
    decreases configs.len() - from,
{
    if from < configs.len() {
        if from != at {
            assert(configs.update(at, entry)[from] == configs[from]);
        }
        lemma_entry_update(configs, at, entry, domain, from + 1);
    }
}

/// The first entry for a domain is an entry for that domain.
proof fn lemma_entry_found(configs: Seq<DomainEntry>, domain: ConfigDomain, from: int)
    requires
        0 <= from,
    ensures
        entry_from(configs, domain, from) matches Some(i) ==> from <= i < configs.len()
            && configs[i].domain == domain,
    decreases configs.len() - from,
{
    if from < configs.len() && configs[from].domain != domain {
        lemma_entry_found(configs, domain, from + 1);
    }
}

/// The pairs after an entry for a domain that had none is added.
proof fn lemma_pairs_push(configs: Seq<DomainEntry>, entry: DomainEntry)
    requires
        entry_from(configs, entry.domain, 0) is None,
    ensures
        pairs_of(configs.push(entry)) =~= pairs_of(configs).insert(entry.domain, entry.pair@),
{
    assert forall|d: ConfigDomain|
        #[trigger] entry_from(configs.push(entry), d, 0) == (match entry_from(configs, d, 0) {
            Some(i) => Some(i),
            None => if entry.domain == d {
                Some(configs.len() as int)
            } else {
                None
            },
        }) by {
        lemma_entry_push(configs, entry, d, 0);
    }
    assert forall|d: ConfigDomain| (#[trigger] entry_from(configs, d, 0)) is Some implies ({
        let i = entry_from(configs, d, 0).unwrap();
        0 <= i < configs.len() && configs.push(entry)[i] == configs[i]
    }) by {
        lemma_entry_found(configs, d, 0);
    }
}

/// The pairs after the first entry for a domain is replaced.
proof fn lemma_pairs_update(configs: Seq<DomainEntry>, at: int, entry: DomainEntry)
    requires
        entry_from(configs, entry.domain, 0) == Some(at),
    ensures
        pairs_of(configs.update(at, entry)) =~= pairs_of(configs).insert(entry.domain, entry.pair@),
{
    lemma_entry_found(configs, entry.domain, 0);
    assert forall|d: ConfigDomain| #[trigger]
        entry_from(configs.update(at, entry), d, 0) == entry_from(configs, d, 0) by {
        lemma_entry_update(configs, at, entry, d, 0);
    }
    assert forall|d: ConfigDomain| (#[trigger] entry_from(configs, d, 0)) is Some implies ({
        let i = entry_from(configs, d, 0).unwrap();
        0 <= i < configs.len() && configs[i].domain == d
    }) by {
        lemma_entry_found(configs, d, 0);
    }
}

/// The first source for a path is one of the sources.
pub proof fn lemma_source_found(sources: Seq<(Seq<char>, ConfigDomain)>, path: Seq<char>, from: int)
    requires
        0 <= from,
    ensures
        source_from(sources, path, from) matches Some(i) ==> from <= i < sources.len()
            && names_same_file(sources[i].0, path),
    decreases sources.len() - from,
{
    if from < sources.len() && !names_same_file(sources[from].0, path) {
        lemma_source_found(sources, path, from + 1);
    }
}

impl Default for ConfigManager {
    fn default() -> (r: ConfigManager)
        ensures
            r@ == initial_manager(),
            r@.wf(),
    {
        let mut r = ConfigManager {
            configs: Vec::new(),
            sources: Vec::new(),
            config_dir: None,
            extras_dir: None,
        };
        assert(pairs_of(r.configs@) =~= Map::<ConfigDomain, PairModel>::empty());
        assert(sources_of(r.sources@) =~= Seq::<(Seq<char>, ConfigDomain)>::empty());
        r.get_or_insert_config(ConfigDomain::General);
        r.get_or_insert_config(ConfigDomain::Syntax(SyntaxDefinition::Yaml));
        r.get_or_insert_config(ConfigDomain::Syntax(SyntaxDefinition::Makefile));
        assert(r@.pairs =~= initial_manager().pairs);
        proof {
            lemma_fresh_pair_wf(ConfigDomain::General);
            lemma_fresh_pair_wf(ConfigDomain::Syntax(SyntaxDefinition::Yaml));
            lemma_fresh_pair_wf(ConfigDomain::Syntax(SyntaxDefinition::Makefile));
        }
        r
    }
}

impl ConfigManager {
    /// The position of the entry for `domain`.
    fn find_config(&self, domain: ConfigDomain) -> (r: Option<usize>)
        ensures
            match r {
                Some(i) => entry_from(self.configs@, domain, 0) == Some(i as int) && i
                    < self.configs@.len() && self.configs@[i as int].domain == domain,
                None => entry_from(self.configs@, domain, 0) is None,
            },
    {
        let mut i: usize = 0;
        while i < self.configs.len()
            invariant
                0 <= i <= self.configs.len(),
                entry_from(self.configs@, domain, 0) == entry_from(self.configs@, domain, i as int),
            decreases self.configs.len() - i,
        {
            if self.configs[i].domain == domain {
                return Some(i);
            }
            i = i + 1;
        }
        None
    }

    /// The position of the entry for `domain`, which is made first if the
    /// domain was not in use.
    fn get_or_insert_config(&mut self, domain: ConfigDomain) -> (i: usize)
        ensures
            final(self)@ == old(self)@.with_domain(domain),
            old(self)@.wf() ==> final(self)@.wf(),
            entry_from(final(self).configs@, domain, 0) == Some(i as int),
            i < final(self).configs@.len(),
            final(self).configs@[i as int].domain == domain,
    {
        match self.find_config(domain) {
            Some(i) => i,
            None => {
                let entry = DomainEntry { domain, pair: ConfigPair::for_domain(domain) };
                proof {
                    lemma_pairs_push(self.configs@, entry);
                    lemma_entry_push(self.configs@, entry, domain, 0);
                    lemma_fresh_pair_wf(domain);
                }
                self.configs.push(entry);
                self.configs.len() - 1
            },
        }
    }

    /// The pair of `domain`, if the domain is in use.
    pub fn pair(&self, domain: ConfigDomain) -> (r: Option<&ConfigPair>)
        ensures
            match r {
                Some(pair) => self@.pairs.contains_key(domain) && pair@ == self@.pairs[domain],
                None => !self@.pairs.contains_key(domain),
            },
    {
        match self.find_config(domain) {
            Some(i) => Some(&self.configs[i].pair),
            None => None,
        }
    }

    /// Sets the base config directory.
    pub fn set_config_dir(&mut self, path: &str)
        ensures
            final(self)@ == (ManagerModel { config_dir: Some(path@), ..old(self)@ }),
    {
        self.config_dir = Some(path.to_owned());
    }

    /// Sets the directory of bundled resources.
    pub fn set_extras_dir(&mut self, path: &str)
        ensures
            final(self)@ == (ManagerModel { extras_dir: Some(path@), ..old(self)@ }),
    {
        self.extras_dir = Some(path.to_owned());
    }

    /// The position of the first source whose path is `path`.
    fn find_source(&self, path: &str) -> (r: Option<usize>)
        ensures
            match r {
                Some(i) => source_from(self@.sources, path@, 0) == Some(i as int) && i
                    < self.sources@.len(),
                None => source_from(self@.sources, path@, 0) is None,
            },
    {
        let mut i: usize = 0;
        while i < self.sources.len()
            invariant
                0 <= i <= self.sources.len(),
                source_from(self@.sources, path@, 0) == source_from(self@.sources, path@, i as int),
            decreases self.sources.len() - i,
        {
            if path_eq(self.sources[i].path.as_str(), path) {
                return Some(i);
            }
            i = i + 1;
        }
        None
    }

    /// Records that the file at `path` was loaded into `domain`.
    fn bind_source(&mut self, path: String, domain: ConfigDomain)
        ensures
            final(self)@ == old(self)@.with_source(Some(path@), domain),
    {
        match self.find_source(path.as_str()) {
            Some(i) => {
                self.sources[i].domain = domain;
                assert(final(self)@.sources =~= bind(old(self)@.sources, path@, domain));
            },
            None => {
                self.sources.push(SourceEntry { path, domain });
                assert(final(self)@.sources =~= bind(old(self)@.sources, path@, domain));
            },
        }
    }

    /// Sets the config for the given domain, removing any existing config.
    /// If a key of `new_config` is not legal in the domain, nothing changes
    /// but that the domain is in use afterwards. On success the file at
    /// `path`, if one is given, counts as loaded into the domain.
    pub fn set_user_config(&mut self, domain: ConfigDomain, new_config: Table, path: Option<String>)
        -> (r: Result<(), ConfigError>)
        requires
            old(self)@.wf(),
        ensures
            final(self)@.wf(),
            outcome(r) == validation_of(table_key_order(new_config), legal_keys(domain)),
            r is Ok <==> table_model(new_config).dom().subset_of(legal_keys(domain)),
            r is Ok ==> final(self)@ == old(self)@.with_user(
                domain,
                table_model(new_config),
            ).with_source(opt_text(path), domain),
            r is Err ==> final(self)@ == old(self)@.with_domain(domain),
    {
        let i = self.get_or_insert_config(domain);
        let ghost mid = self.configs@;
        let ghost pairs = self@.pairs;
        let result = self.configs[i].pair.set_table(new_config);
        proof {
            assert(self.configs@ =~= mid.update(i as int, self.configs@[i as int]));
            lemma_pairs_update(mid, i as int, self.configs@[i as int]);
            if result is Err {
                assert(self@.pairs =~= pairs);
            }
        }
        if result.is_ok() {
            match path {
                Some(p) => {
                    self.bind_source(p, domain);
                },
                None => {},
            }
        }
        result
    }

    /// Updates the config for the given domain. Existing keys which are
    /// not in `changes` are untouched; existing keys for which `changes`
    /// contains null are removed. If a key of `changes` is not legal in the
    /// domain, nothing changes but that the domain is in use afterwards.
    pub fn update_user_config(&mut self, domain: ConfigDomain, changes: Table) -> (r: Result<
        (),
        ConfigError,
    >)
        requires
            old(self)@.wf(),
        ensures
            final(self)@.wf(),
            outcome(r) == validation_of(table_key_order(changes), legal_keys(domain)),
            r is Ok <==> table_model(changes).dom().subset_of(legal_keys(domain)),
            r is Ok ==> final(self)@ == old(self)@.with_user(
                domain,
                crate::model::applied(old(self)@.user_of(domain), table_model(changes)),
            ),
            r is Err ==> final(self)@ == old(self)@.with_domain(domain),
    {
        let i = self.get_or_insert_config(domain);
        let ghost mid = self.configs@;
        let ghost pairs = self@.pairs;
        let result = self.configs[i].pair.update_table(changes);
        proof {
            assert(self.configs@ =~= mid.update(i as int, self.configs@[i as int]));
            lemma_pairs_update(mid, i as int, self.configs@[i as int]);
            if result is Err {
                assert(self@.pairs =~= pairs);
            }
        }
        result
    }

    /// If `source` is the path of a loaded config file, unloads it: all
    /// user settings of the domain it was loaded into are dropped, whatever
    /// file they came from.
    pub fn remove_source(&mut self, source: &str)
        requires
            old(self)@.wf(),
        ensures
            final(self)@.wf(),
            final(self)@ == (match bound_domain(old(self)@.sources, source@) {
                Some(domain) => (ManagerModel {
                    sources: unbind(old(self)@.sources, source@),
                    ..old(self)@
                }).with_user(domain, no_entries()),
                None => old(self)@,
            }),
    {
        match self.find_source(source) {
            Some(i) => {
                let entry = self.sources.remove(i);
                assert(self@.sources =~= unbind(old(self)@.sources, source@));
                let r = self.set_user_config(entry.domain, table_new(), None);
            },
            None => {},
        }
    }

    /// Checks whether a given file should be loaded, i.e. whether it is a
    /// config file and whether it is in an expected location.
    pub fn should_load_file(&self, path: &str) -> (r: bool)
        ensures
            r == should_load(self@.config_dir, path@),
    {
        if !has_config_extension(path) {
            return false;
        }
        let names_domain = match path_file_stem(path) {
            Some(_) => ConfigDomain::try_from_path(path).is_ok(),
            None => false,
        };
        if !names_domain {
            return false;
        }
        match &self.config_dir {
            Some(dir) => match path_parent(path) {
                Some(parent) => path_eq(dir.as_str(), parent.as_str()),
                None => false,
            },
            None => false,
        }
    }

    /// Adds the snapshot of `domain` to `tables`, if the domain is in use.
    fn push_layer(&self, tables: &mut Vec<Arc<Table>>, domain: ConfigDomain)
        ensures
            tables_model(final(tables)@) == tables_model(old(tables)@) + layer(
                self@.pairs,
                Some(domain),
            ),
    {
        match self.pair(domain) {
            Some(pair) => {
                tables.push(table_share(pair.cache()));
                assert(tables_model(final(tables)@) =~= tables_model(old(tables)@) + layer(
                    self@.pairs,
                    Some(domain),
                ));
            },
            None => {
                assert(tables_model(final(tables)@) =~= tables_model(old(tables)@) + layer(
                    self@.pairs,
                    Some(domain),
                ));
            },
        }
    }

    /// The precedence chain for a buffer with the given syntax and view:
    /// the snapshots of the domains in use, most specific first.
    pub fn table_stack(&self, syntax: Option<SyntaxDefinition>, view_id: Option<ViewIdentifier>) -> (r:
        TableStack)
        ensures
            r@ == chain_for(self@.pairs, syntax, view_id),
    {
        let mut tables: Vec<Arc<Table>> = Vec::new();
        assert(tables_model(tables@) =~= Seq::<TableModel>::empty());
        match view_id {
            Some(v) => {
                self.push_layer(&mut tables, ConfigDomain::UserOverride(v));
                self.push_layer(&mut tables, ConfigDomain::SysOverride(v));
            },
            None => {},
        }
        match syntax {
            Some(s) => {
                self.push_layer(&mut tables, ConfigDomain::Syntax(s));
            },
            None => {},
        }
        self.push_layer(&mut tables, ConfigDomain::General);
        assert(tables_model(tables@) =~= chain_for(self@.pairs, syntax, view_id));
        TableStack(tables)
    }

    /// Generates a snapshot of the current configuration for a particular
    /// view, if the settings that apply give every buffer setting with a
    /// value of the right type.
    pub fn try_get_buffer_config(
        &self,
        syntax: Option<SyntaxDefinition>,
        view_id: Option<ViewIdentifier>,
    ) -> (r: Option<BufferConfig>)
        ensures
            match r {
                Some(config) => config.source@ == chain_for(self@.pairs, syntax, view_id)
                    && buffer_items_of(collated(chain_for(self@.pairs, syntax, view_id))) == Some(
                    config.items@,
                ),
                None => buffer_items_of(collated(chain_for(self@.pairs, syntax, view_id))) is None,
            },
    {
        self.table_stack(syntax, view_id).try_into_config()
    }

    /// Generates a snapshot of the current configuration for a particular
    /// view. The settings that apply must give every buffer setting with a
    /// value of the right type.
    pub fn get_buffer_config(&self, syntax: Option<SyntaxDefinition>, view_id: Option<ViewIdentifier>)
        -> (r: BufferConfig)
        requires
            buffer_items_of(collated(chain_for(self@.pairs, syntax, view_id))) is Some,
        ensures
            r.source@ == chain_for(self@.pairs, syntax, view_id),
            buffer_items_of(collated(chain_for(self@.pairs, syntax, view_id))) == Some(r.items@),
    {
        self.table_stack(syntax, view_id).into_config()
    }

    /// The snapshot of the general settings alone.
    pub fn default_buffer_config(&self) -> (r: BufferConfig)
        requires
            buffer_items_of(collated(chain_for(self@.pairs, None, None))) is Some,
        ensures
            r.source@ == chain_for(self@.pairs, None, None),
            buffer_items_of(collated(chain_for(self@.pairs, None, None))) == Some(r.items@),
    {
        self.get_buffer_config(None, None)
    }

    /// The entries of the search path as the general settings give them,
    /// if they give a list of strings.
    pub fn search_path_entries(&self) -> (r: Option<Vec<String>>)
        ensures
            match r {
                Some(entries) => self@.search_entries() == Some(key_texts(entries@)),
                None => self@.search_entries() is None,
            },
    {
        match self.pair(ConfigDomain::General) {
            Some(pair) => {
                let cache: &Table = pair.cache();
                match table_get(cache, "plugin_search_path") {
                    Some(value) => value_string_list(value),
                    None => None,
                }
            },
            None => None,
        }
    }

    /// Returns the plugin search path: the entries that the general
    /// settings give, relative ones resolved against the config directory
    /// if one is set, and then the extras directory if one is set. The
    /// general settings must give the entries as a list of strings.
    pub fn plugin_search_path(&self) -> (r: Vec<String>)
        requires
            self@.search_entries() is Some,
        ensures
            key_texts(r@) == with_extras(
                resolved_entries(self@.search_entries().unwrap(), self@.config_dir),
                self@.extras_dir,
            ),
    {
        let entries = self.search_path_entries().unwrap();
        let mut search_path: Vec<String> = match &self.config_dir {
            Some(dir) => {
                let mut joined: Vec<String> = Vec::new();
                let mut i: usize = 0;
                while i < entries.len()
                    invariant
                        0 <= i <= entries.len(),
                        joined@.len() == i,
                        forall|j: int|
                            0 <= j < i ==> (#[trigger] joined@[j])@ == path_joined(
                                dir@,
                                entries@[j]@,
                            ),
                    decreases entries.len() - i,
                {
                    joined.push(path_join(dir.as_str(), entries[i].as_str()));
                    i = i + 1;
                }
                assert(key_texts(joined@) =~= resolved_entries(key_texts(entries@), Some(dir@)));
                joined
            },
            None => entries,
        };
        let ghost resolved = key_texts(search_path@);
        match &self.extras_dir {
            Some(dir) => {
                search_path.push(dir.clone());
                assert(key_texts(search_path@) =~= resolved.push(dir@));
            },
            None => {},
        }
        search_path
    }
}

} // verus!
