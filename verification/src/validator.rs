//! Validation of config tables against the keys that are legal in a domain.

use vstd::prelude::*;
use vstd::hash_set::StringHashSet;
use std::rc::Rc;
use crate::domain::ConfigDomain;
use crate::error::{outcome, ConfigError, ConfigErrorModel};
use crate::json::{lists_keys, key_texts, table_key_order, table_keys, table_get, table_model, Table};

verus! {

/// The config keys that are legal in most config files.
pub open spec fn general_keys() -> Set<Seq<char>> {
    set!["tab_size"@, "line_ending"@, "translate_tabs_to_spaces"@, "font_face"@, "font_size"@]
}

/// The config keys that are only legal at the top level.
pub open spec fn top_level_keys() -> Set<Seq<char>> {
    set!["plugin_search_path"@]
}

/// The keys that a table for `domain` may hold.
pub open spec fn legal_keys(domain: ConfigDomain) -> Set<Seq<char>> {
    match domain {
        ConfigDomain::General => general_keys().union(top_level_keys()),
        _ => general_keys(),
    }
}

/// The first key of `order`, from position `from` on, that is not in `legal`.
pub open spec fn first_illegal_from(order: Seq<Seq<char>>, legal: Set<Seq<char>>, from: int)
    -> Option<Seq<char>>
    decreases order.len() - from,
{
    if from < 0 || from >= order.len() {
        None
    } else if !legal.contains(order[from]) {
        Some(order[from])
    } else {
        first_illegal_from(order, legal, from + 1)
    }
}

/// What validating keys in the given order against `legal` gives: the
/// first key that is not legal is refused.
pub open spec fn validation_of(order: Seq<Seq<char>>, legal: Set<Seq<char>>) -> Result<
    (),
    ConfigErrorModel,
> {
    match first_illegal_from(order, legal, 0) {
        Some(key) => Err(ConfigErrorModel::IllegalKey(key)),
        None => Ok(()),
    }
}

/// No key is refused from `from` on exactly when every key from there on is
/// legal; a key that is refused is one of the keys and not legal.
pub proof fn lemma_first_illegal(order: Seq<Seq<char>>, legal: Set<Seq<char>>, from: int)
    requires
        0 <= from,
    ensures
        first_illegal_from(order, legal, from) is None <==> forall|i: int|
            from <= i < order.len() ==> legal.contains(#[trigger] order[i]),
        first_illegal_from(order, legal, from) matches Some(key) ==> order.contains(key)
            && !legal.contains(key),
    decreases order.len() - from,
{
    if from < order.len() {
        if legal.contains(order[from]) {
            lemma_first_illegal(order, legal, from + 1);
        }
    }
}

/// A table whose keys come in `order` passes validation exactly when all of
/// its keys are legal.
pub proof fn lemma_validation_ok(order: Seq<Seq<char>>, entries: Map<Seq<char>, crate::json::JsonModel>, legal: Set<Seq<char>>)
    requires
        lists_keys(order, entries),
    ensures
        validation_of(order, legal) is Ok <==> entries.dom().subset_of(legal),
        validation_of(order, legal) matches Err(e) ==> e matches ConfigErrorModel::IllegalKey(key)
            && entries.contains_key(key) && !legal.contains(key),
{
    lemma_first_illegal(order, legal, 0);
    if entries.dom().subset_of(legal) {
        assert forall|i: int| 0 <= i < order.len() implies legal.contains(#[trigger] order[i]) by {
            assert(order.contains(order[i]));
            assert(entries.contains_key(order[i]));
        }
    }
    if validation_of(order, legal) is Ok {
        assert forall|k: Seq<char>| entries.dom().contains(k) implies legal.contains(k) by {
            assert(entries.contains_key(k));
            assert(order.contains(k));
            let i = choose|i: int| 0 <= i < order.len() && order[i] == k;
            assert(legal.contains(order[i]));
        }
    }
}

/// A `Validator` is responsible for validating a config table.
pub trait Validator {
    /// The keys that this validator accepts.
    spec fn legal(&self) -> Set<Seq<char>>;

    /// Accepts `key` if it is legal, whatever its value.
    fn validate(&self, key: &str, value: &serde_json::Value) -> (r: Result<(), ConfigError>)
        ensures
            outcome(r) == (if self.legal().contains(key@) {
                Ok::<(), ConfigErrorModel>(())
            } else {
                Err(ConfigErrorModel::IllegalKey(key@))
            }),
    ;

    /// Validates every entry of `table` in the table's order, and fails on
    /// the first key that is not legal.
    fn validate_table(&self, table: &Table) -> (r: Result<(), ConfigError>)
        ensures
            outcome(r) == validation_of(table_key_order(*table), self.legal()),
            r is Ok <==> table_model(*table).dom().subset_of(self.legal()),
    {
        let keys = table_keys(table);
        let mut i: usize = 0;
        while i < keys.len()
            invariant
                0 <= i <= keys.len(),
                key_texts(keys@) == table_key_order(*table),
                lists_keys(key_texts(keys@), table_model(*table)),
                first_illegal_from(table_key_order(*table), self.legal(), 0) == first_illegal_from(
                    table_key_order(*table),
                    self.legal(),
                    i as int,
                ),
            decreases keys.len() - i,
        {
            let key = keys[i].as_str();
            assert(key_texts(keys@)[i as int] == key@);
            assert(key_texts(keys@).contains(key@));
            match table_get(table, key) {
                Some(value) => {
                    match self.validate(key, value) {
                        Ok(_) => {},
                        Err(e) => {
                            proof {
                                lemma_validation_ok(
                                    table_key_order(*table),
                                    table_model(*table),
                                    self.legal(),
                                );
                            }
                            return Err(e);
                        },
                    }
                },
                None => {},
            }
            i = i + 1;
        }
        proof {
            lemma_validation_ok(table_key_order(*table), table_model(*table), self.legal());
        }
        Ok(())
    }
}

/// An implementation of `Validator` that checks keys against a whitelist.
pub struct KeyValidator {
    keys: StringHashSet,
}

impl KeyValidator {
    /// Create a `KeyValidator` appropriate to the given domain.
    pub fn for_domain(domain: ConfigDomain) -> (r: Rc<KeyValidator>)
        ensures
            r.legal() == legal_keys(domain),
    {
        let mut keys = StringHashSet::new();
        keys.insert("tab_size".to_owned());
        keys.insert("line_ending".to_owned());
        keys.insert("translate_tabs_to_spaces".to_owned());
        keys.insert("font_face".to_owned());
        keys.insert("font_size".to_owned());
        match domain {
            ConfigDomain::General => {
                keys.insert("plugin_search_path".to_owned());
            },
            _ => {},
        }
        assert(keys@ =~= legal_keys(domain));
        Rc::new(KeyValidator { keys })
    }
}

impl Validator for KeyValidator {
    closed spec fn legal(&self) -> Set<Seq<char>> {
        self.keys@
    }

    fn validate(&self, key: &str, value: &serde_json::Value) -> (r: Result<(), ConfigError>) {
        if self.keys.contains(key) {
            Ok(())
        } else {
            Err(ConfigError::IllegalKey(key.to_owned()))
        }
    }
}

} // verus!
