//! Default settings masked by user settings, with a snapshot of both.

use vstd::prelude::*;
use std::rc::Rc;
use std::sync::Arc;
use crate::defaults::{defaults_for_domain, defaults_model};
use crate::domain::ConfigDomain;
use crate::error::{outcome, ConfigError};
use crate::json::{
    key_texts, lists_keys, table_clone, table_get, table_insert, table_keys, table_key_order,
    table_model, table_new, table_remove, value_clone, value_is_null, Table, TableModel,
};
use crate::model::{
    applied, entries_of, lemma_apply_nothing, lemma_apply_step, lemma_merge_step,
    lemma_prefix_set_empty, lemma_prefix_set_full, lemma_prefix_set_step, merged, prefix_set,
};
use crate::validator::{legal_keys, validation_of, KeyValidator, Validator};

verus! {

/// What a `ConfigPair` stands for.
pub struct PairModel {
    /// The default settings, which never change.
    pub base: Option<TableModel>,
    /// The user's settings.
    pub user: Option<TableModel>,
    /// The snapshot of both.
    pub cache: TableModel,
    /// The keys that the user's settings may hold.
    pub legal: Set<Seq<char>>,
}

impl PairModel {
    /// The snapshot is the default settings masked by the user's.
    pub open spec fn wf(self) -> bool {
        self.cache == merged(self.base, self.user)
    }

    /// The pair with the user's settings replaced, and its snapshot taken
    /// anew.
    pub open spec fn with_user(self, user: TableModel) -> PairModel {
        PairModel { user: Some(user), cache: merged(self.base, Some(user)), ..self }
    }
}

/// The pair of a domain before any user settings are given.
pub open spec fn fresh_pair(domain: ConfigDomain) -> PairModel {
    PairModel {
        base: defaults_model(domain),
        user: None,
        cache: entries_of(defaults_model(domain)),
        legal: legal_keys(domain),
    }
}

/// The snapshot of a fresh pair is up to date.
pub proof fn lemma_fresh_pair_wf(domain: ConfigDomain)
    ensures
        fresh_pair(domain).wf(),
{
    assert(fresh_pair(domain).cache =~= merged(fresh_pair(domain).base, fresh_pair(domain).user));
}

/// Represents the common pattern of default settings masked by user
/// settings.
pub struct ConfigPair {
    /// A static default configuration, which will never change.
    base: Option<Table>,
    /// A variable, user provided configuration. Items here take precedence
    /// over items in `base`.
    user: Option<Table>,
    /// A snapshot of base + user.
    cache: Arc<Table>,
    validator: Rc<KeyValidator>,
}

/// The entries of an optional table.
pub open spec fn opt_table_model(table: Option<Table>) -> Option<TableModel> {
    match table {
        Some(t) => Some(table_model(t)),
        None => None,
    }
}

impl View for ConfigPair {
    type V = PairModel;

    closed spec fn view(&self) -> PairModel {
        PairModel {
            base: opt_table_model(self.base),
            user: opt_table_model(self.user),
            cache: table_model(*self.cache),
            legal: self.validator.legal(),
        }
    }
}

impl ConfigPair {
    /// Creates a `ConfigPair` with the given defaults and validator, and no
    /// user settings.
    pub fn new(base: Option<Table>, validator: Rc<KeyValidator>) -> (r: ConfigPair)
        ensures
            r@ == (PairModel {
                base: opt_table_model(base),
                user: None,
                cache: entries_of(opt_table_model(base)),
                legal: validator.legal(),
            }),
            r@.wf(),
    {
        let cache = match &base {
            Some(table) => table_clone(table),
            None => table_new(),
        };
        let r = ConfigPair { base, user: None, cache: Arc::new(cache), validator };
        assert(r@.cache =~= merged(r@.base, r@.user));
        r
    }

    /// Creates a new `ConfigPair` suitable for the provided domain.
    pub fn for_domain(domain: ConfigDomain) -> (r: ConfigPair)
        ensures
            r@ == fresh_pair(domain),
            r@.wf(),
    {
        let validator = KeyValidator::for_domain(domain);
        let base = defaults_for_domain(domain);
        ConfigPair::new(base, validator)
    }

    /// The current snapshot of the defaults masked by the user's settings.
    pub fn cache(&self) -> (r: &Arc<Table>)
        ensures
            table_model(**r) == self@.cache,
    {
        &self.cache
    }

    /// The default settings, if the pair has any.
    pub fn base(&self) -> (r: Option<&Table>)
        ensures
            match r {
                Some(t) => self@.base == Some(table_model(*t)),
                None => self@.base is None,
            },
    {
        self.base.as_ref()
    }

    /// The user's settings, if any were given.
    pub fn user(&self) -> (r: Option<&Table>)
        ensures
            match r {
                Some(t) => self@.user == Some(table_model(*t)),
                None => self@.user is None,
            },
    {
        self.user.as_ref()
    }

    /// Replaces the user's settings by `user`, if all of its keys are legal;
    /// otherwise nothing changes.
    pub fn set_table(&mut self, user: Table) -> (r: Result<(), ConfigError>)
        ensures
            outcome(r) == validation_of(table_key_order(user), old(self)@.legal),
            r is Ok <==> table_model(user).dom().subset_of(old(self)@.legal),
            r is Ok ==> final(self)@ == old(self)@.with_user(table_model(user)),
            r is Err ==> final(self)@ == old(self)@,
            old(self)@.wf() ==> final(self)@.wf(),
    {
        match self.validator.validate_table(&user) {
            Ok(_) => {},
            Err(e) => {
                return Err(e);
            },
        }
        self.user = Some(user);
        self.rebuild();
        Ok(())
    }

    /// Applies `changes` onto the user's settings, if all of its keys are
    /// legal; otherwise nothing changes. A null value unsets its key, another
    /// value sets it, and keys that `changes` does not hold are untouched.
    pub fn update_table(&mut self, changes: Table) -> (r: Result<(), ConfigError>)
        ensures
            outcome(r) == validation_of(table_key_order(changes), old(self)@.legal),
            r is Ok <==> table_model(changes).dom().subset_of(old(self)@.legal),
            r is Ok ==> final(self)@ == old(self)@.with_user(
                applied(entries_of(old(self)@.user), table_model(changes)),
            ),
            r is Err ==> final(self)@ == old(self)@,
            old(self)@.wf() ==> final(self)@.wf(),
    {
        match self.validator.validate_table(&changes) {
            Ok(_) => {},
            Err(e) => {
                return Err(e);
            },
        }
        let ghost before = entries_of(self@.user);
        let ghost delta = table_model(changes);
        let mut conf = match self.user.take() {
            Some(table) => table,
            None => table_new(),
        };
        let keys = table_keys(&changes);
        let ghost order = key_texts(keys@);
        let mut i: usize = 0;
        proof {
            lemma_prefix_set_empty(order);
            lemma_apply_nothing(before, delta);
        }
        while i < keys.len()
            invariant
                0 <= i <= keys.len(),
                order == key_texts(keys@),
                delta == table_model(changes),
                lists_keys(order, delta),
                table_model(conf) == applied(before, delta.restrict(prefix_set(order, i as int))),
            decreases keys.len() - i,
        {
            let key = &keys[i];
            assert(order[i as int] == key@);
            assert(order.contains(key@));
            proof {
                lemma_prefix_set_step(order, i as int);
                lemma_apply_step(before, delta, prefix_set(order, i as int), key@);
            }
            match table_get(&changes, key.as_str()) {
                Some(value) => {
                    if value_is_null(value) {
                        table_remove(&mut conf, key.as_str());
                    } else {
                        table_insert(&mut conf, key.clone(), value_clone(value));
                    }
                },
                None => {},
            }
            i = i + 1;
        }
        proof {
            lemma_prefix_set_full(order, delta);
        }
        self.user = Some(conf);
        self.rebuild();
        Ok(())
    }

    /// Takes the snapshot anew: the defaults, overwritten with every entry
    /// of the user's settings.
    fn rebuild(&mut self)
        ensures
            final(self)@ == (PairModel {
                cache: merged(old(self)@.base, old(self)@.user),
                ..old(self)@
            }),
    {
        let mut cache = match &self.base {
            Some(table) => table_clone(table),
            None => table_new(),
        };
        let ghost base = entries_of(self@.base);
        match &self.user {
            Some(user) => {
                let keys = table_keys(user);
                let ghost order = key_texts(keys@);
                let ghost over = table_model(*user);
                let mut i: usize = 0;
                proof {
                    lemma_prefix_set_empty(order);
                    assert(table_model(cache) =~= base.union_prefer_right(
                        over.restrict(prefix_set(order, 0)),
                    ));
                }
                while i < keys.len()
                    invariant
                        0 <= i <= keys.len(),
                        order == key_texts(keys@),
                        over == table_model(*user),
                        lists_keys(order, over),
                        table_model(cache) == base.union_prefer_right(
                            over.restrict(prefix_set(order, i as int)),
                        ),
                    decreases keys.len() - i,
                {
                    let key = &keys[i];
                    assert(order[i as int] == key@);
                    assert(order.contains(key@));
                    proof {
                        lemma_prefix_set_step(order, i as int);
                        lemma_merge_step(base, over, prefix_set(order, i as int), key@);
                    }
                    match table_get(user, key.as_str()) {
                        Some(value) => {
                            table_insert(&mut cache, key.clone(), value_clone(value));
                        },
                        None => {},
                    }
                    i = i + 1;
                }
                proof {
                    lemma_prefix_set_full(order, over);
                }
            },
            None => {
                assert(table_model(cache) =~= merged(self@.base, self@.user));
            },
        }
        self.cache = Arc::new(cache);
    }
}

} // verus!
