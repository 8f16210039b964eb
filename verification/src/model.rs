//! What merging and updating tables mean, over the tables' entries.

use vstd::prelude::*;
use crate::json::{lists_keys, no_entries, TableModel};

verus! {

/// The entries of an optional table: none where there is no table.
pub open spec fn entries_of(table: Option<TableModel>) -> TableModel {
    match table {
        Some(entries) => entries,
        None => no_entries(),
    }
}

/// Default settings masked by user settings: every key of either, with the
/// user's value where both have one.
pub open spec fn merged(base: Option<TableModel>, user: Option<TableModel>) -> TableModel {
    entries_of(base).union_prefer_right(entries_of(user))
}

/// The user settings after an update: a key that `changes` gives as null is
/// unset, a key that it gives another value is set to that value, and a key
/// that it does not hold stays as it was.
pub open spec fn applied(user: TableModel, changes: TableModel) -> TableModel {
    Map::new(
        |k: Seq<char>|
            if changes.contains_key(k) {
                !(changes[k] is Null)
            } else {
                user.contains_key(k)
            },
        |k: Seq<char>|
            if changes.contains_key(k) {
                changes[k]
            } else {
                user[k]
            },
    )
}

/// The keys among the first `n` of `order`.
pub open spec fn prefix_set(order: Seq<Seq<char>>, n: int) -> Set<Seq<char>> {
    Set::new(|k: Seq<char>| exists|j: int| 0 <= j < n && j < order.len() && order[j] == k)
}

pub proof fn lemma_prefix_set_empty(order: Seq<Seq<char>>)
    ensures
        prefix_set(order, 0) =~= Set::<Seq<char>>::empty(),
{
}

pub proof fn lemma_prefix_set_step(order: Seq<Seq<char>>, n: int)
    requires
        0 <= n < order.len(),
    ensures
        prefix_set(order, n + 1) =~= prefix_set(order, n).insert(order[n]),
{
    assert forall|k: Seq<char>| prefix_set(order, n).insert(order[n]).contains(k) implies prefix_set(
        order,
        n + 1,
    ).contains(k) by {
        if k == order[n] {
            assert(0 <= n < n + 1 && n < order.len() && order[n] == k);
        } else {
            let j = choose|j: int| 0 <= j < n && j < order.len() && order[j] == k;
            assert(0 <= j < n + 1 && j < order.len() && order[j] == k);
        }
    }
}

pub proof fn lemma_prefix_set_full(order: Seq<Seq<char>>, entries: TableModel)
    requires
        lists_keys(order, entries),
    ensures
        prefix_set(order, order.len() as int) =~= entries.dom(),
        entries.restrict(prefix_set(order, order.len() as int)) =~= entries,
{
    assert forall|k: Seq<char>| entries.dom().contains(k) implies prefix_set(
        order,
        order.len() as int,
    ).contains(k) by {
        assert(entries.contains_key(k));
        assert(order.contains(k));
        let j = choose|j: int| 0 <= j < order.len() && order[j] == k;
        assert(0 <= j < order.len() && j < order.len() && order[j] == k);
    }
    assert forall|k: Seq<char>| prefix_set(order, order.len() as int).contains(k) implies entries.dom().contains(
        k,
    ) by {
        let j = choose|j: int| 0 <= j < order.len() && j < order.len() && order[j] == k;
        assert(order.contains(order[j]));
        assert(entries.contains_key(k));
    }
}

/// Masking with one more key of the user's settings.
pub proof fn lemma_merge_step(base: TableModel, user: TableModel, done: Set<Seq<char>>, k: Seq<char>)
    requires
        user.contains_key(k),
    ensures
        base.union_prefer_right(user.restrict(done.insert(k))) =~= base.union_prefer_right(
            user.restrict(done),
        ).insert(k, user[k]),
{
}

/// Applying one more key of the changes.
pub proof fn lemma_apply_step(
    user: TableModel,
    changes: TableModel,
    done: Set<Seq<char>>,
    k: Seq<char>,
)
    requires
        changes.contains_key(k),
    ensures
        applied(user, changes.restrict(done.insert(k))) =~= (if changes[k] is Null {
            applied(user, changes.restrict(done)).remove(k)
        } else {
            applied(user, changes.restrict(done)).insert(k, changes[k])
        }),
{
}

pub proof fn lemma_apply_nothing(user: TableModel, changes: TableModel)
    ensures
        applied(user, changes.restrict(Set::<Seq<char>>::empty())) =~= user,
{
}

} // verus!
