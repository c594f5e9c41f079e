//! The part of a TOML document that the configuration logic reads, held as
//! plain values, and the call into the TOML parser that produces it.

use vstd::prelude::*;

verus! {

/// The declaration of the parser's table type, so that the conversion below can name it.
#[verifier::external_type_specification]
#[verifier::external_body]
pub struct ExTomlTable(toml_edit::Table);

/// The declaration of the parser's item type (a value, a table or an array of tables).
#[verifier::external_type_specification]
#[verifier::external_body]
pub struct ExTomlItem(toml_edit::Item);

/// The declaration of the parser's value type.
#[verifier::external_type_specification]
#[verifier::external_body]
pub struct ExTomlValue(toml_edit::Value);

/// A TOML item as the configuration logic sees it.
///
/// Strings, integers, arrays, tables and arrays of tables are kept; every
/// other kind of value (floats, booleans, dates, inline tables) is `Other`.
#[derive(Debug, PartialEq, Eq)]
pub enum TomlValue {
    Str(String),
    Int(i64),
    Array(Vec<TomlValue>),
    Table(TomlTable),
    TableArray(Vec<TomlTable>),
    Other,
}

/// A TOML table: its key/value pairs in document order.
#[derive(Debug, PartialEq, Eq)]
pub struct TomlTable {
    pub entries: Vec<(String, TomlValue)>,
}

/// The item stored under `key`; when a key occurs more than once the last
/// occurrence wins.
pub open spec fn lookup(entries: Seq<(String, TomlValue)>, key: Seq<char>) -> Option<TomlValue>
    decreases entries.len(),
{
    if entries.len() == 0 {
        None
    } else if entries.last().0@ == key {
        Some(entries.last().1)
    } else {
        lookup(entries.drop_last(), key)
    }
}

/// The table stored under `key`, if the item there is a (non-inline) table.
pub open spec fn sub_table(entries: Seq<(String, TomlValue)>, key: Seq<char>) -> Option<TomlTable> {
    match lookup(entries, key) {
        Some(TomlValue::Table(t)) => Some(t),
        _ => None,
    }
}

/// Name for the result of parsing `text` as a TOML document with the parser
/// crate: the root table, or `None` when the text is not valid TOML.
pub uninterp spec fn toml_document(text: Seq<char>) -> Option<TomlTable>;

/// Calls `toml_edit`'s `DocumentMut` parser (`str::parse`) and converts the
/// root table it returns. The contract only names the result: that the same
/// text always gives the same document.
#[verifier::external_body]
pub(crate) fn parse_toml(text: &str) -> (doc: Option<TomlTable>)
    ensures
        doc == toml_document(text@),
{
    match text.parse::<toml_edit::DocumentMut>() {
        Ok(d) => Some(table_model(d.as_table())),
        Err(_) => None,
    }
}

/// Part of the conversion in `parse_toml`: a parser table becomes a
/// `TomlTable`, entry by entry, through the table's own iterator.
#[verifier::external_body]
fn table_model(t: &toml_edit::Table) -> TomlTable {
    TomlTable { entries: t.iter().map(|(k, v)| (k.to_string(), item_model(v))).collect() }
}

/// Part of the conversion in `parse_toml`: one arm per kind of parser item.
#[verifier::external_body]
fn item_model(item: &toml_edit::Item) -> TomlValue {
    match item {
        toml_edit::Item::Value(v) => value_model(v),
        toml_edit::Item::Table(t) => TomlValue::Table(table_model(t)),
        toml_edit::Item::ArrayOfTables(a) => TomlValue::TableArray(a.iter().map(table_model).collect()),
        toml_edit::Item::None => TomlValue::Other,
    }
}

/// Part of the conversion in `parse_toml`: one arm per kind of parser value.
#[verifier::external_body]
fn value_model(v: &toml_edit::Value) -> TomlValue {
    match v {
        toml_edit::Value::String(s) => TomlValue::Str(s.value().clone()),
        toml_edit::Value::Integer(i) => TomlValue::Int(*i.value()),
        toml_edit::Value::Array(a) => TomlValue::Array(a.iter().map(value_model).collect()),
        _ => TomlValue::Other,
    }
}

impl TomlTable {
    /// Position of the entry that `lookup` returns for `key`.
    pub fn find(&self, key: &str) -> (r: Option<usize>)
        ensures
            match r {
                Some(i) => i < self.entries@.len() && self.entries@[i as int].0@ == key@
                    && lookup(self.entries@, key@) == Some(self.entries@[i as int].1),
                None => lookup(self.entries@, key@) is None,
            },
    {
        let k: String = String::from_str(key);
        let mut i: usize = self.entries.len();
        assert(self.entries@.subrange(0, i as int) =~= self.entries@);
        while i > 0
            invariant
                i <= self.entries@.len(),
                k@ == key@,
                lookup(self.entries@, key@) == lookup(self.entries@.subrange(0, i as int), key@),
            decreases i,
        {
            let ghost prefix = self.entries@.subrange(0, i as int);
            assert(prefix.drop_last() =~= self.entries@.subrange(0, i - 1));
            if self.entries[i - 1].0 == k {
                return Some(i - 1);
            }
            i = i - 1;
        }
        None
    }

    /// The table stored under `key`, as `sub_table` says.
    pub fn get_table(&self, key: &str) -> (r: Option<&TomlTable>)
        ensures
            match r {
                Some(t) => sub_table(self.entries@, key@) == Some(*t),
                None => sub_table(self.entries@, key@) is None,
            },
    {
        match self.find(key) {
            Some(i) => match &self.entries[i].1 {
                TomlValue::Table(t) => Some(t),
                _ => None,
            },
            None => None,
        }
    }
}

} // verus!
