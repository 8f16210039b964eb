//! Frozen settings: the typed items resolved from a precedence chain,
//! together with the chain they came from.

use vstd::prelude::*;
use vstd::std_specs::cmp::PartialEqSpec;
use crate::chain::{collated, diff_of};
use crate::json::{
    table_get, table_model, value_as_bool, value_as_number, value_as_string, value_as_u64,
    number_model, JsonModel, NumberModel, Table, TableModel,
};
use crate::pair::opt_table_model;
use crate::stack::TableStack;

verus! {

/// The concrete type for buffer-related settings.
#[derive(Debug, Clone, PartialEq)]
pub struct BufferItems {
    pub line_ending: String,
    pub tab_size: usize,
    pub translate_tabs_to_spaces: bool,
    pub font_face: String,
    pub font_size: serde_json::Number,
}

/// What `BufferItems` stand for.
pub struct BufferItemsModel {
    pub line_ending: Seq<char>,
    pub tab_size: int,
    pub translate_tabs_to_spaces: bool,
    pub font_face: Seq<char>,
    pub font_size: NumberModel,
}

impl View for BufferItems {
    type V = BufferItemsModel;

    open spec fn view(&self) -> BufferItemsModel {
        BufferItemsModel {
            line_ending: self.line_ending@,
            tab_size: self.tab_size as int,
            translate_tabs_to_spaces: self.translate_tabs_to_spaces,
            font_face: self.font_face@,
            font_size: number_model(self.font_size),
        }
    }
}

/// Whether `entries` gives `key` a string.
pub open spec fn has_text(entries: TableModel, key: Seq<char>) -> bool {
    entries.contains_key(key) && entries[key] is Str
}

/// Whether `entries` gives `key` an integer that fits a `usize`.
pub open spec fn has_size(entries: TableModel, key: Seq<char>) -> bool {
    entries.contains_key(key) && (entries[key] matches JsonModel::Number(NumberModel::Int(n)) && 0
        <= n <= usize::MAX)
}

/// Whether `entries` gives `key` a boolean.
pub open spec fn has_flag(entries: TableModel, key: Seq<char>) -> bool {
    entries.contains_key(key) && entries[key] is Bool
}

/// Whether `entries` gives `key` a number.
pub open spec fn has_number(entries: TableModel, key: Seq<char>) -> bool {
    entries.contains_key(key) && entries[key] is Number
}

/// The buffer settings that a table gives, if it gives each of them with a
/// value of the right type. Other keys of the table do not matter.
pub open spec fn buffer_items_of(entries: TableModel) -> Option<BufferItemsModel> {
    if has_text(entries, "line_ending"@) && has_size(entries, "tab_size"@) && has_flag(
        entries,
        "translate_tabs_to_spaces"@,
    ) && has_text(entries, "font_face"@) && has_number(entries, "font_size"@) {
        Some(
            BufferItemsModel {
                line_ending: entries["line_ending"@]->Str_0,
                tab_size: entries["tab_size"@]->Number_0->Int_0,
                translate_tabs_to_spaces: entries["translate_tabs_to_spaces"@]->Bool_0,
                font_face: entries["font_face"@]->Str_0,
                font_size: entries["font_size"@]->Number_0,
            },
        )
    } else {
        None
    }
}

/// What optional buffer settings stand for.
pub open spec fn opt_items_model(items: Option<BufferItems>) -> Option<BufferItemsModel> {
    match items {
        Some(items) => Some(items@),
        None => None,
    }
}

fn text_field(table: &Table, key: &str) -> (r: Option<String>)
    ensures
        match r {
            Some(s) => has_text(table_model(*table), key@) && table_model(*table)[key@]
                == JsonModel::Str(s@),
            None => !has_text(table_model(*table), key@),
        },
{
    match table_get(table, key) {
        Some(v) => value_as_string(v),
        None => None,
    }
}

fn size_field(table: &Table, key: &str) -> (r: Option<usize>)
    ensures
        match r {
            Some(n) => has_size(table_model(*table), key@) && table_model(*table)[key@]
                == JsonModel::Number(NumberModel::Int(n as int)),
            None => !has_size(table_model(*table), key@),
        },
{
    match table_get(table, key) {
        Some(v) => match value_as_u64(v) {
            Some(n) => if n <= usize::MAX as u64 {
                Some(n as usize)
            } else {
                None
            },
            None => None,
        },
        None => None,
    }
}

fn flag_field(table: &Table, key: &str) -> (r: Option<bool>)
    ensures
        match r {
            Some(b) => has_flag(table_model(*table), key@) && table_model(*table)[key@]
                == JsonModel::Bool(b),
            None => !has_flag(table_model(*table), key@),
        },
{
    match table_get(table, key) {
        Some(v) => value_as_bool(v),
        None => None,
    }
}

fn number_field(table: &Table, key: &str) -> (r: Option<serde_json::Number>)
    ensures
        match r {
            Some(n) => has_number(table_model(*table), key@) && table_model(*table)[key@]
                == JsonModel::Number(number_model(n)),
            None => !has_number(table_model(*table), key@),
        },
{
    match table_get(table, key) {
        Some(v) => value_as_number(v),
        None => None,
    }
}

impl BufferItems {
    /// Reads the buffer settings from a table. Fails if a setting is
    /// missing or has a value of the wrong type.
    pub fn from_table(table: &Table) -> (r: Option<BufferItems>)
        ensures
            opt_items_model(r) == buffer_items_of(table_model(*table)),
    {
        let line_ending = match text_field(table, "line_ending") {
            Some(s) => s,
            None => {
                return None;
            },
        };
        let tab_size = match size_field(table, "tab_size") {
            Some(n) => n,
            None => {
                return None;
            },
        };
        let translate_tabs_to_spaces = match flag_field(table, "translate_tabs_to_spaces") {
            Some(b) => b,
            None => {
                return None;
            },
        };
        let font_face = match text_field(table, "font_face") {
            Some(s) => s,
            None => {
                return None;
            },
        };
        let font_size = match number_field(table, "font_size") {
            Some(n) => n,
            None => {
                return None;
            },
        };
        Some(BufferItems { line_ending, tab_size, translate_tabs_to_spaces, font_face, font_size })
    }
}

/// A frozen collection of settings, and their sources.
#[derive(Debug, Clone)]
pub struct Config<T> {
    /// The underlying set of config tables that contributed to this
    /// `Config` instance. Used for diffing.
    pub source: TableStack,
    /// The settings themselves, in some concrete type.
    pub items: T,
}

pub type BufferConfig = Config<BufferItems>;

impl<T> Config<T> {
    /// Freezes `items` together with the chain they were resolved from.
    pub fn new(source: TableStack, items: T) -> (r: Config<T>)
        ensures
            r.source@ == source@,
            r.items == items,
    {
        Config { source, items }
    }

    /// All the settings, in one table.
    pub fn to_table(&self) -> (r: Table)
        ensures
            table_model(r) == collated(self.source@),
    {
        self.source.collate()
    }

    /// Returns a `Table` of all the items in `self` which have different
    /// values than in `other`; all of them where there is no `other`.
    pub fn changes_from(&self, other: Option<&Config<T>>) -> (r: Option<Table>)
        ensures
            opt_table_model(r) == (match other {
                Some(other) => diff_of(self.source@, other.source@),
                None => Some(collated(self.source@)),
            }),
    {
        match other {
            Some(other) => self.source.diff(&other.source),
            None => Some(self.source.collate()),
        }
    }
}

/// Two snapshots are equal when their items are, whatever tables they came
/// from.
impl<T: PartialEq> PartialEq for Config<T> {
    fn eq(&self, other: &Config<T>) -> (r: bool) {
        self.items == other.items
    }
}

impl<T: PartialEq> vstd::std_specs::cmp::PartialEqSpecImpl for Config<T> {
    open spec fn obeys_eq_spec() -> bool {
        T::obeys_eq_spec()
    }

    open spec fn eq_spec(&self, other: &Config<T>) -> bool {
        self.items.eq_spec(&other.items)
    }
}

impl TableStack {
    /// Converts the underlying tables into a static `Config` instance, if
    /// they give every buffer setting with a value of the right type.
    pub fn try_into_config(self) -> (r: Option<BufferConfig>)
        ensures
            match r {
                Some(config) => config.source@ == self@ && buffer_items_of(collated(self@)) == Some(
                    config.items@,
                ),
                None => buffer_items_of(collated(self@)) is None,
            },
    {
        let out = self.collate();
        match BufferItems::from_table(&out) {
            Some(items) => Some(Config { source: self, items }),
            None => None,
        }
    }

    /// Converts the underlying tables into a static `Config` instance. The
    /// tables must give every buffer setting with a value of the right type.
    pub fn into_config(self) -> (r: BufferConfig)
        requires
            buffer_items_of(collated(self@)) is Some,
        ensures
            r.source@ == self@,
            buffer_items_of(collated(self@)) == Some(r.items@),
    {
        self.try_into_config().unwrap()
    }
}

} // verus!
