//! What a precedence chain of tables resolves to, over the tables' entries.
//! Index 0 of a chain has the highest precedence.

use vstd::prelude::*;
use crate::json::{no_entries, JsonModel, TableModel};

verus! {

/// The value of `key` in the first table of `chain`, from position `from`
/// on, that holds the key.
pub open spec fn get_from(chain: Seq<TableModel>, key: Seq<char>, from: int) -> Option<JsonModel>
    decreases chain.len() - from,
{
    if from < 0 || from >= chain.len() {
        None
    } else if chain[from].contains_key(key) {
        Some(chain[from][key])
    } else {
        get_from(chain, key, from + 1)
    }
}

/// The value that `chain` resolves `key` to: that of the first table that
/// holds the key.
pub open spec fn chain_get(chain: Seq<TableModel>, key: Seq<char>) -> Option<JsonModel> {
    get_from(chain, key, 0)
}

/// The chain flattened into one table: every key that some table holds,
/// with the value that the chain resolves it to.
pub open spec fn collated(chain: Seq<TableModel>) -> TableModel {
    Map::new(
        |k: Seq<char>| chain_get(chain, k) is Some,
        |k: Seq<char>| chain_get(chain, k).unwrap(),
    )
}

/// The entries that `current` resolves otherwise than `previous` does, keys
/// that `previous` does not resolve included.
pub open spec fn changed(current: Seq<TableModel>, previous: Seq<TableModel>) -> TableModel {
    Map::new(
        |k: Seq<char>| chain_get(current, k) is Some && chain_get(previous, k) != chain_get(current, k),
        |k: Seq<char>| chain_get(current, k).unwrap(),
    )
}

/// The changes from `previous` to `current`, or nothing where there are
/// none.
pub open spec fn diff_of(current: Seq<TableModel>, previous: Seq<TableModel>) -> Option<
    TableModel,
> {
    if changed(current, previous) == no_entries() {
        None
    } else {
        Some(changed(current, previous))
    }
}

/// Resolving in a chain with one more table at its end: the tables before
/// it decide first.
pub proof fn lemma_get_extend(chain: Seq<TableModel>, key: Seq<char>, n: int, from: int)
    requires
        0 <= from <= n < chain.len(),
    ensures
        get_from(chain.take(n + 1), key, from) == (match get_from(chain.take(n), key, from) {
            Some(v) => Some(v),
            None => if chain[n].contains_key(key) {
                Some(chain[n][key])
            } else {
                None
            },
        }),
    decreases n - from,
{
    if from < n {
        assert(chain.take(n + 1)[from] == chain.take(n)[from]);
        if !chain.take(n)[from].contains_key(key) {
            lemma_get_extend(chain, key, n, from + 1);
        }
    } else {
        assert(chain.take(n + 1)[n] == chain[n]);
        assert(get_from(chain.take(n + 1), key, n + 1) is None);
    }
}

/// Flattening a chain with one more table at its end: the table adds the
/// keys that the tables before it do not hold.
pub proof fn lemma_collated_extend(chain: Seq<TableModel>, n: int)
    requires
        0 <= n < chain.len(),
    ensures
        collated(chain.take(n + 1)) =~= chain[n].union_prefer_right(collated(chain.take(n))),
{
    assert forall|k: Seq<char>|
        #[trigger] chain_get(chain.take(n + 1), k) == (match chain_get(chain.take(n), k) {
            Some(v) => Some(v),
            None => if chain[n].contains_key(k) {
                Some(chain[n][k])
            } else {
                None
            },
        }) by {
        lemma_get_extend(chain, k, n, 0);
    }
}

/// Adding a key of the table at hand to what has been flattened so far.
pub proof fn lemma_collate_step(
    table: TableModel,
    done: Set<Seq<char>>,
    so_far: TableModel,
    k: Seq<char>,
)
    requires
        table.contains_key(k),
    ensures
        table.restrict(done.insert(k)).union_prefer_right(so_far) =~= (if table.restrict(
            done,
        ).union_prefer_right(so_far).contains_key(k) {
            table.restrict(done).union_prefer_right(so_far)
        } else {
            table.restrict(done).union_prefer_right(so_far).insert(k, table[k])
        }),
{
}

} // verus!
