//! The dynamically typed settings values and tables, as `serde_json` holds
//! them, together with the mathematical model that the contracts speak of.
//!
//! Nothing in this module is proved: each function states what the
//! `serde_json` item it calls is known to do.

use vstd::prelude::*;

verus! {

/// A map of config keys to settings.
pub type Table = serde_json::Map<String, serde_json::Value>;

/// `serde_json::Value`, of which only `value_model` is known.
#[verifier::external_type_specification]
#[verifier::external_body]
pub struct ExJsonValue(serde_json::Value);

/// `serde_json::Number`, of which only `number_model` is known.
#[verifier::external_type_specification]
#[verifier::external_body]
pub struct ExJsonNumber(serde_json::Number);

/// `serde_json::Map`, of which only `table_model` and `table_key_order`
/// are known.
#[verifier::external_type_specification]
#[verifier::external_body]
#[verifier::reject_recursive_types(K)]
#[verifier::reject_recursive_types(V)]
pub struct ExJsonMap<K, V>(serde_json::Map<K, V>);

/// What a JSON number stands for.
pub enum NumberModel {
    /// An integer between `i64::MIN` and `u64::MAX`.
    Int(int),
    /// A number held in floating point, given by a code: two such numbers
    /// compare equal exactly when their codes agree.
    Float(int),
}

/// What a settings value stands for.
pub enum JsonModel {
    Null,
    Bool(bool),
    Number(NumberModel),
    Str(Seq<char>),
    Array(Seq<JsonModel>),
    Object(Map<Seq<char>, JsonModel>),
}

/// The entries of a table: its keys, each with what its value stands for.
pub type TableModel = Map<Seq<char>, JsonModel>;

/// The table without entries.
pub open spec fn no_entries() -> TableModel {
    Map::empty()
}

/// The texts of a list of strings.
pub open spec fn key_texts(keys: Seq<String>) -> Seq<Seq<char>> {
    Seq::new(keys.len(), |i: int| keys[i]@)
}

/// What a list of values stands for.
pub open spec fn value_models(values: Seq<serde_json::Value>) -> Seq<JsonModel> {
    Seq::new(values.len(), |i: int| value_model(values[i]))
}

/// `order` lists every key of `entries` once and nothing else.
pub open spec fn lists_keys(order: Seq<Seq<char>>, entries: TableModel) -> bool {
    &&& order.no_duplicates()
    &&& forall|k: Seq<char>| order.contains(k) <==> #[trigger] entries.contains_key(k)
}

/// The text of a string value.
pub open spec fn text_of(m: JsonModel) -> Seq<char> {
    match m {
        JsonModel::Str(s) => s,
        _ => Seq::empty(),
    }
}

/// The list of texts that `m` holds, if it is an array of strings.
pub open spec fn string_list_of(m: JsonModel) -> Option<Seq<Seq<char>>> {
    match m {
        JsonModel::Array(items) => if forall|i: int| 0 <= i < items.len() ==> items[i] is Str {
            Some(Seq::new(items.len(), |i: int| text_of(items[i])))
        } else {
            None
        },
        _ => None,
    }
}

/// The value that `v` stands for.
pub uninterp spec fn value_model(v: serde_json::Value) -> JsonModel;

/// The number that `n` stands for.
pub uninterp spec fn number_model(n: serde_json::Number) -> NumberModel;

/// The entries of `t`.
pub uninterp spec fn table_model(t: Table) -> TableModel;

/// The keys of `t` in the order in which the table hands them out.
pub uninterp spec fn table_key_order(t: Table) -> Seq<Seq<char>>;

/// `serde_json::Map::new`: a table without entries.
#[verifier::external_body]
pub(crate) fn table_new() -> (t: Table)
    ensures
        table_model(t) == no_entries(),
{
    serde_json::Map::new()
}

/// `serde_json::Map::clone`: a table with the same entries.
#[verifier::external_body]
pub(crate) fn table_clone(t: &Table) -> (r: Table)
    ensures
        table_model(r) == table_model(*t),
{
    t.clone()
}

/// `serde_json::Map::insert`: the entry for `k` becomes `v`, every other
/// entry stays.
#[verifier::external_body]
pub(crate) fn table_insert(t: &mut Table, k: String, v: serde_json::Value)
    ensures
        table_model(*final(t)) == table_model(*old(t)).insert(k@, value_model(v)),
{
    t.insert(k, v);
}

/// `serde_json::Map::remove`: the entry for `k` leaves, if there is one;
/// every other entry stays.
#[verifier::external_body]
pub(crate) fn table_remove(t: &mut Table, k: &str)
    ensures
        table_model(*final(t)) == table_model(*old(t)).remove(k@),
{
    t.remove(k);
}

/// `serde_json::Map::contains_key`: whether `t` has an entry for `k`.
#[verifier::external_body]
pub(crate) fn table_contains_key(t: &Table, k: &str) -> (r: bool)
    ensures
        r == table_model(*t).contains_key(k@),
{
    t.contains_key(k)
}

/// `serde_json::Map::get`: the value of the entry for `k`, if there is one.
#[verifier::external_body]
pub(crate) fn table_get<'a>(t: &'a Table, k: &str) -> (r: Option<&'a serde_json::Value>)
    ensures
        match r {
            Some(v) => table_model(*t).contains_key(k@) && value_model(*v) == table_model(*t)[k@],
            None => !table_model(*t).contains_key(k@),
        },
{
    t.get(k)
}

/// `serde_json::Map::keys`: every key of `t` once, in the table's order.
#[verifier::external_body]
pub(crate) fn table_keys(t: &Table) -> (r: Vec<String>)
    ensures
        key_texts(r@) == table_key_order(*t) && lists_keys(key_texts(r@), table_model(*t)),
{
    t.keys().cloned().collect()
}

/// `Arc::clone`: another handle on the same table.
#[verifier::external_body]
pub(crate) fn table_share(t: &std::sync::Arc<Table>) -> (r: std::sync::Arc<Table>)
    ensures
        *r == **t,
{
    std::sync::Arc::clone(t)
}

/// `Value::from(u64)`: the integer `n`.
#[verifier::external_body]
pub(crate) fn value_from_u64(n: u64) -> (v: serde_json::Value)
    ensures
        value_model(v) == JsonModel::Number(NumberModel::Int(n as int)),
{
    serde_json::Value::from(n)
}

/// `Value::from(bool)`.
#[verifier::external_body]
pub(crate) fn value_from_bool(b: bool) -> (v: serde_json::Value)
    ensures
        value_model(v) == JsonModel::Bool(b),
{
    serde_json::Value::from(b)
}

/// `Value::from(String)`: a string value with the text of `s`.
#[verifier::external_body]
pub(crate) fn value_from_string(s: String) -> (v: serde_json::Value)
    ensures
        value_model(v) == JsonModel::Str(s@),
{
    serde_json::Value::from(s)
}

/// `Value::from(Vec<Value>)`: an array of the given values, in their order.
#[verifier::external_body]
pub(crate) fn value_from_list(items: Vec<serde_json::Value>) -> (v: serde_json::Value)
    ensures
        value_model(v) == JsonModel::Array(value_models(items@)),
{
    serde_json::Value::from(items)
}

/// `Value::clone`: a value that stands for the same thing.
#[verifier::external_body]
pub(crate) fn value_clone(v: &serde_json::Value) -> (r: serde_json::Value)
    ensures
        value_model(r) == value_model(*v),
{
    v.clone()
}

/// `Value::eq`: two values are equal exactly when they stand for the same
/// thing.
#[verifier::external_body]
pub(crate) fn value_eq(a: &serde_json::Value, b: &serde_json::Value) -> (r: bool)
    ensures
        r == (value_model(*a) == value_model(*b)),
{
    a == b
}

/// `Value::is_null`.
#[verifier::external_body]
pub(crate) fn value_is_null(v: &serde_json::Value) -> (r: bool)
    ensures
        r == (value_model(*v) is Null),
{
    v.is_null()
}

/// `Value::as_bool`: the boolean, if `v` is one.
#[verifier::external_body]
pub(crate) fn value_as_bool(v: &serde_json::Value) -> (r: Option<bool>)
    ensures
        match r {
            Some(b) => value_model(*v) == JsonModel::Bool(b),
            None => !(value_model(*v) is Bool),
        },
{
    v.as_bool()
}

/// `Value::as_u64`: the integer, if `v` is an integer that is not negative.
#[verifier::external_body]
pub(crate) fn value_as_u64(v: &serde_json::Value) -> (r: Option<u64>)
    ensures
        match r {
            Some(n) => value_model(*v) == JsonModel::Number(NumberModel::Int(n as int)),
            None => !(value_model(*v) matches JsonModel::Number(NumberModel::Int(i)) && i >= 0),
        },
{
    v.as_u64()
}

/// `Value::as_str`: the text, if `v` is a string.
#[verifier::external_body]
pub(crate) fn value_as_string(v: &serde_json::Value) -> (r: Option<String>)
    ensures
        match r {
            Some(s) => value_model(*v) == JsonModel::Str(s@),
            None => !(value_model(*v) is Str),
        },
{
    v.as_str().map(|s| s.to_owned())
}

/// `Value::as_number`: the number, if `v` is one.
#[verifier::external_body]
pub(crate) fn value_as_number(v: &serde_json::Value) -> (r: Option<serde_json::Number>)
    ensures
        match r {
            Some(n) => value_model(*v) == JsonModel::Number(number_model(n)),
            None => !(value_model(*v) is Number),
        },
{
    v.as_number().cloned()
}

/// `Number::clone`: a number that stands for the same thing.
pub assume_specification[ <serde_json::Number as Clone>::clone ](n: &serde_json::Number) -> (r:
    serde_json::Number)
    ensures
        number_model(r) == number_model(*n),
;

/// `serde_json::from_value` into a list of strings: it succeeds exactly on
/// an array whose items are all strings, and hands out their texts in order.
#[verifier::external_body]
pub(crate) fn value_string_list(v: &serde_json::Value) -> (r: Option<Vec<String>>)
    ensures
        match r {
            Some(list) => string_list_of(value_model(*v)) == Some(key_texts(list@)),
            None => string_list_of(value_model(*v)) is None,
        },
{
    serde_json::from_value::<Vec<String>>(v.clone()).ok()
}

} // verus!
