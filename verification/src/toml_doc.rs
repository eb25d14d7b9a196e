//! The parts of a TOML document that the configuration is read from: the
//! top-level entries, and one level of tables below them.

use vstd::prelude::*;

use crate::text::str_eq;

verus! {

/// The error of the `toml` crate when a document does not parse.
#[verifier::external_type_specification]
#[verifier::external_body]
pub struct ExTomlError(toml::de::Error);

/// A value inside a top-level table: a string, an integer, or anything else.
pub enum TomlLeaf {
    Str(String),
    Integer(i64),
    Other,
}

/// A top-level value: a string, an integer, a table (with its entries, in the
/// order the `toml` crate walks them), or anything else.
pub enum TomlItem {
    Str(String),
    Integer(i64),
    Table(Vec<(String, TomlLeaf)>),
    Other,
}

/// The abstract value of a [`TomlLeaf`].
pub enum LeafModel {
    Str(Seq<char>),
    Integer(i64),
    Other,
}

/// The abstract value of a [`TomlItem`].
pub enum ItemModel {
    Str(Seq<char>),
    Integer(i64),
    Table(Seq<(Seq<char>, LeafModel)>),
    Other,
}

impl View for TomlLeaf {
    type V = LeafModel;

    open spec fn view(&self) -> LeafModel {
        match self {
            TomlLeaf::Str(s) => LeafModel::Str(s@),
            TomlLeaf::Integer(i) => LeafModel::Integer(*i),
            TomlLeaf::Other => LeafModel::Other,
        }
    }
}

/// The abstract value of the entries of a table.
pub open spec fn leaves_view(entries: Seq<(String, TomlLeaf)>) -> Seq<(Seq<char>, LeafModel)> {
    entries.map_values(|e: (String, TomlLeaf)| (e.0@, e.1@))
}

impl View for TomlItem {
    type V = ItemModel;

    open spec fn view(&self) -> ItemModel {
        match self {
            TomlItem::Str(s) => ItemModel::Str(s@),
            TomlItem::Integer(i) => ItemModel::Integer(*i),
            TomlItem::Table(entries) => ItemModel::Table(leaves_view(entries@)),
            TomlItem::Other => ItemModel::Other,
        }
    }
}

/// The abstract value of the top-level entries of a document.
pub open spec fn doc_view(entries: Seq<(String, TomlItem)>) -> Seq<(Seq<char>, ItemModel)> {
    entries.map_values(|e: (String, TomlItem)| (e.0@, e.1@))
}

/// What the `toml` crate reads from a document: `None` when it does not parse,
/// else its top-level entries.
pub uninterp spec fn toml_document(content: Seq<char>) -> Option<Seq<(Seq<char>, ItemModel)>>;

/// Parses a TOML document with the `toml` crate (`str::parse::<toml::Table>`,
/// which calls `toml::from_str`) and hands out its top-level entries, and the
/// entries of top-level tables, as plain values. The contract claims that the
/// result is a function of the text alone (the name [`toml_document`]); what
/// that function is, TOML's grammar, is left to the crate.
#[verifier::external_body]
pub fn parse_toml(content: &str) -> (res: Result<Vec<(String, TomlItem)>, toml::de::Error>)
    ensures
        match res {
            Ok(entries) => toml_document(content@) == Some(doc_view(entries@)),
            Err(_) => toml_document(content@) is None,
        },
{
    content.parse::<toml::Table>().map(|table| table.into_iter().map(|(key, value)| (key, match value {
        toml::Value::String(s) => TomlItem::Str(s),
        toml::Value::Integer(i) => TomlItem::Integer(i),
        toml::Value::Table(inner) => TomlItem::Table(inner.into_iter().map(|(k, v)| (k, match v {
            toml::Value::String(s) => TomlLeaf::Str(s),
            toml::Value::Integer(i) => TomlLeaf::Integer(i),
            _ => TomlLeaf::Other,
        })).collect()),
        _ => TomlItem::Other,
    })).collect())
}

/// The value of the first entry under `key` (a TOML table holds each key once).
pub open spec fn lookup<V>(entries: Seq<(Seq<char>, V)>, key: Seq<char>) -> Option<V>
    decreases entries.len(),
{
    if entries.len() == 0 {
        None
    } else if entries[0].0 == key {
        Some(entries[0].1)
    } else {
        lookup(entries.drop_first(), key)
    }
}

/// The string of a top-level value, empty when it is not a string.
pub open spec fn item_str_or_empty(item: ItemModel) -> Seq<char> {
    match item {
        ItemModel::Str(s) => s,
        _ => Seq::empty(),
    }
}

/// The top-level entry under `key`.
pub fn find_item<'a>(entries: &'a Vec<(String, TomlItem)>, key: &str) -> (found: Option<&'a TomlItem>)
    ensures
        match found {
            Some(item) => lookup(doc_view(entries@), key@) == Some(item@),
            None => lookup(doc_view(entries@), key@) is None,
        },
{
    let ghost all = doc_view(entries@);
    assert(all.subrange(0, all.len() as int) =~= all);
    let mut i: usize = 0;
    while i < entries.len()
        invariant
            all == doc_view(entries@),
            i <= entries@.len(),
            lookup(all, key@) == lookup(all.subrange(i as int, all.len() as int), key@),
        decreases entries@.len() - i,
    {
        let ghost rest = all.subrange(i as int, all.len() as int);
        assert(rest[0] == all[i as int]);
        if str_eq(entries[i].0.as_str(), key) {
            return Some(&entries[i].1);
        }
        assert(rest.drop_first() =~= all.subrange(i + 1, all.len() as int));
        i += 1;
    }
    None
}

/// The entry under `key` in a table.
pub fn find_leaf<'a>(entries: &'a Vec<(String, TomlLeaf)>, key: &str) -> (found: Option<&'a TomlLeaf>)
    ensures
        match found {
            Some(leaf) => lookup(leaves_view(entries@), key@) == Some(leaf@),
            None => lookup(leaves_view(entries@), key@) is None,
        },
{
    let ghost all = leaves_view(entries@);
    assert(all.subrange(0, all.len() as int) =~= all);
    let mut i: usize = 0;
    while i < entries.len()
        invariant
            all == leaves_view(entries@),
            i <= entries@.len(),
            lookup(all, key@) == lookup(all.subrange(i as int, all.len() as int), key@),
        decreases entries@.len() - i,
    {
        let ghost rest = all.subrange(i as int, all.len() as int);
        assert(rest[0] == all[i as int]);
        if str_eq(entries[i].0.as_str(), key) {
            return Some(&entries[i].1);
        }
        assert(rest.drop_first() =~= all.subrange(i + 1, all.len() as int));
        i += 1;
    }
    None
}

/// The string of a top-level value, empty when it is not a string.
pub fn item_string(item: &TomlItem) -> (s: String)
    ensures
        s@ == item_str_or_empty(item@),
{
    match item {
        TomlItem::Str(s) => s.clone(),
        _ => String::new(),
    }
}

} // verus!
