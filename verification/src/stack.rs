//! Precedence chains of table snapshots, and the frozen settings resolved
//! from them.

use vstd::prelude::*;
use std::sync::Arc;
use crate::chain::{
    chain_get, changed, collated, diff_of, get_from, lemma_collate_step, lemma_collated_extend,
};
use crate::json::{
    key_texts, lists_keys, no_entries, table_get, table_insert, table_keys, table_model,
    table_new, value_clone, value_eq, value_model, Table, TableModel,
};
use crate::model::{lemma_prefix_set_empty, lemma_prefix_set_full, lemma_prefix_set_step, prefix_set};
use crate::pair::opt_table_model;

verus! {

/// A collection of config tables representing a hierarchy, with each
/// table's keys superseding keys in the tables that follow it.
#[derive(Debug, Clone, Default)]
pub struct TableStack(pub Vec<Arc<Table>>);

/// The entries of each table of a list.
pub open spec fn tables_model(tables: Seq<Arc<Table>>) -> Seq<TableModel> {
    Seq::new(tables.len(), |i: int| table_model(*tables[i]))
}

impl View for TableStack {
    type V = Seq<TableModel>;

    open spec fn view(&self) -> Seq<TableModel> {
        tables_model(self.0@)
    }
}

impl TableStack {
    /// Create a single table representing the final config values.
    pub fn collate(&self) -> (out: Table)
        ensures
            table_model(out) == collated(self@),
    {
        let mut out = table_new();
        let mut i: usize = 0;
        assert(table_model(out) =~= collated(self@.take(0)));
        while i < self.0.len()
            invariant
                0 <= i <= self.0.len(),
                table_model(out) == collated(self@.take(i as int)),
            decreases self.0.len() - i,
        {
            let table: &Table = &self.0[i];
            let ghost so_far = table_model(out);
            let ghost entries = table_model(*table);
            assert(entries == self@[i as int]);
            let keys = table_keys(table);
            let ghost order = key_texts(keys@);
            let mut j: usize = 0;
            proof {
                lemma_prefix_set_empty(order);
                assert(table_model(out) =~= entries.restrict(prefix_set(order, 0)).union_prefer_right(
                    so_far,
                ));
            }
            while j < keys.len()
                invariant
                    0 <= j <= keys.len(),
                    order == key_texts(keys@),
                    entries == table_model(*table),
                    lists_keys(order, entries),
                    table_model(out) == entries.restrict(
                        prefix_set(order, j as int),
                    ).union_prefer_right(so_far),
                decreases keys.len() - j,
            {
                let key = &keys[j];
                assert(order[j as int] == key@);
                assert(order.contains(key@));
                proof {
                    lemma_prefix_set_step(order, j as int);
                    lemma_collate_step(entries, prefix_set(order, j as int), so_far, key@);
                }
                if !crate::json::table_contains_key(&out, key.as_str()) {
                    match table_get(table, key.as_str()) {
                        Some(value) => {
                            table_insert(&mut out, key.clone(), value_clone(value));
                        },
                        None => {},
                    }
                }
                j = j + 1;
            }
            proof {
                lemma_prefix_set_full(order, entries);
                lemma_collated_extend(self@, i as int);
            }
            i = i + 1;
        }
        assert(self@.take(self.0.len() as int) =~= self@);
        out
    }

    /// Walks the tables in priority order, returning the first occurrence
    /// of `key`.
    pub fn get(&self, key: &str) -> (r: Option<&serde_json::Value>)
        ensures
            match r {
                Some(v) => chain_get(self@, key@) == Some(value_model(*v)),
                None => chain_get(self@, key@) is None,
            },
    {
        let mut i: usize = 0;
        while i < self.0.len()
            invariant
                0 <= i <= self.0.len(),
                chain_get(self@, key@) == get_from(self@, key@, i as int),
            decreases self.0.len() - i,
        {
            let table: &Table = &self.0[i];
            assert(table_model(*table) == self@[i as int]);
            match table_get(table, key) {
                Some(v) => {
                    return Some(v);
                },
                None => {},
            }
            i = i + 1;
        }
        None
    }

    /// Returns a new `Table` containing only those keys and values in
    /// `self` which have changed from `other`.
    pub fn diff(&self, other: &TableStack) -> (r: Option<Table>)
        ensures
            opt_table_model(r) == diff_of(self@, other@),
    {
        let mut out: Option<Table> = None;
        let this = self.collate();
        let keys = table_keys(&this);
        let ghost order = key_texts(keys@);
        let ghost all = changed(self@, other@);
        let mut i: usize = 0;
        proof {
            lemma_prefix_set_empty(order);
            assert(all.restrict(prefix_set(order, 0)) =~= no_entries());
        }
        while i < keys.len()
            invariant
                0 <= i <= keys.len(),
                order == key_texts(keys@),
                table_model(this) == collated(self@),
                lists_keys(order, table_model(this)),
                all == changed(self@, other@),
                match out {
                    Some(t) => table_model(t) == all.restrict(prefix_set(order, i as int))
                        && table_model(t) != no_entries(),
                    None => all.restrict(prefix_set(order, i as int)) == no_entries(),
                },
            decreases keys.len() - i,
        {
            let key = &keys[i];
            assert(order[i as int] == key@);
            assert(order.contains(key@));
            proof {
                lemma_prefix_set_step(order, i as int);
            }
            let ghost done = prefix_set(order, i as int);
            match table_get(&this, key.as_str()) {
                Some(v) => {
                    let differs = match other.get(key.as_str()) {
                        Some(o) => !value_eq(o, v),
                        None => true,
                    };
                    if differs {
                        let mut t = match out {
                            Some(t) => t,
                            None => table_new(),
                        };
                        table_insert(&mut t, key.clone(), value_clone(v));
                        assert(table_model(t) =~= all.restrict(done.insert(key@)));
                        assert(table_model(t).contains_key(key@));
                        out = Some(t);
                    } else {
                        assert(all.restrict(done.insert(key@)) =~= all.restrict(done));
                    }
                },
                None => {},
            }
            i = i + 1;
        }
        proof {
            lemma_prefix_set_full(order, table_model(this));
            assert(all.restrict(prefix_set(order, order.len() as int)) =~= all);
        }
        out
    }
}

} // verus!
