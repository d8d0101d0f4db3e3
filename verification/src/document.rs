//! TOML documents, through the `toml` crate.
//!
//! The crate parses and renders the text; this module gives its tables a
//! mathematical model (an ordered list of entries, as the crate keeps them
//! with `preserve_order`) and reaches into them one value at a time.

use vstd::prelude::*;

verus! {

#[verifier::external_type_specification]
#[verifier::external_body]
#[verifier::reject_recursive_types(K)]
#[verifier::reject_recursive_types(V)]
pub struct ExTomlMap<K, V>(toml::map::Map<K, V>);

#[verifier::external_type_specification]
#[verifier::external_body]
pub struct ExTomlValue(toml::Value);

#[verifier::external_type_specification]
#[verifier::external_body]
pub struct ExTomlDeError(toml::de::Error);

#[verifier::external_type_specification]
#[verifier::external_body]
pub struct ExTomlSerError(toml::ser::Error);

/// A TOML value as a mathematical object. Floats and datetimes carry no
/// payload: nothing in this library reads one.
pub enum TomlValue {
    Str(Seq<char>),
    Int(int),
    Float,
    Bool(bool),
    Datetime,
    Array(Seq<TomlValue>),
    Table(Seq<(Seq<char>, TomlValue)>),
}

/// The entries of a table, in the order the table keeps them.
pub uninterp spec fn toml_table_entries(t: toml::Table) -> Seq<(Seq<char>, TomlValue)>;

/// The entries of the document `toml::from_str` reads from `text`, or `None`
/// where it refuses the text.
pub uninterp spec fn toml_parse_document(text: Seq<char>) -> Option<Seq<(Seq<char>, TomlValue)>>;

/// The text `toml::to_string_pretty` writes for a table with these entries.
pub uninterp spec fn toml_render_pretty(entries: Seq<(Seq<char>, TomlValue)>) -> Seq<char>;

/// The value stored under `key`, if any.
pub open spec fn entry_lookup(entries: Seq<(Seq<char>, TomlValue)>, key: Seq<char>) -> Option<
    TomlValue,
>
    decreases entries.len(),
{
    if entries.len() == 0 {
        None
    } else if entries[0].0 == key {
        Some(entries[0].1)
    } else {
        entry_lookup(entries.drop_first(), key)
    }
}

/// Whether `key` occurs among the entries.
pub open spec fn entries_have_key(entries: Seq<(Seq<char>, TomlValue)>, key: Seq<char>) -> bool {
    exists|i: int| 0 <= i < entries.len() && #[trigger] entries[i].0 == key
}

/// `entries` after storing `value` under `key`: an existing entry keeps its
/// place and takes the new value, a new key goes to the end.
pub open spec fn entries_insert(
    entries: Seq<(Seq<char>, TomlValue)>,
    key: Seq<char>,
    value: TomlValue,
) -> Seq<(Seq<char>, TomlValue)> {
    if entries_have_key(entries, key) {
        let i = choose|i: int| 0 <= i < entries.len() && #[trigger] entries[i].0 == key;
        entries.update(i, (key, value))
    } else {
        entries.push((key, value))
    }
}

/// A string, integer or boolean: the values this library writes.
pub open spec fn is_scalar(v: TomlValue) -> bool {
    match v {
        TomlValue::Str(_) | TomlValue::Int(_) | TomlValue::Bool(_) => true,
        _ => false,
    }
}

/// Every entry holds a scalar, and no key occurs twice.
pub open spec fn is_flat_table(entries: Seq<(Seq<char>, TomlValue)>) -> bool {
    &&& forall|i: int| 0 <= i < entries.len() ==> is_scalar(#[trigger] entries[i].1)
    &&& forall|i: int, j: int|
        0 <= i < j < entries.len() ==> #[trigger] entries[i].0 != #[trigger] entries[j].0
}

/// A scalar to be written into a table.
pub enum TomlScalar {
    Int(i64),
    Str(String),
    Bool(bool),
}

/// The model of a scalar.
pub open spec fn scalar_model(s: TomlScalar) -> TomlValue {
    match s {
        TomlScalar::Int(i) => TomlValue::Int(i as int),
        TomlScalar::Str(t) => TomlValue::Str(t@),
        TomlScalar::Bool(b) => TomlValue::Bool(b),
    }
}

/// One value read out of a table; strings, arrays and nested tables by
/// reference.
pub enum TomlNode<'a> {
    Str(&'a String),
    Int(i64),
    Float,
    Bool(bool),
    Datetime,
    Array(&'a Vec<toml::Value>),
    Table(&'a toml::Table),
}

/// Whether `node` reports the value `v`.
pub open spec fn node_reports(node: TomlNode, v: TomlValue) -> bool {
    match node {
        TomlNode::Str(s) => v == TomlValue::Str(s@),
        TomlNode::Int(i) => v == TomlValue::Int(i as int),
        TomlNode::Float => v == TomlValue::Float,
        TomlNode::Bool(b) => v == TomlValue::Bool(b),
        TomlNode::Datetime => v == TomlValue::Datetime,
        TomlNode::Array(a) => v is Array && v->Array_0.len() == a@.len(),
        TomlNode::Table(t) => v == TomlValue::Table(toml_table_entries(*t)),
    }
}

/// Reads a TOML document with `toml::from_str` into a table. Claimed: the
/// outcome depends on the text alone, and a table that comes back holds the
/// entries of the document.
#[verifier::external_body]
pub(crate) fn parse_document(text: &str) -> (res: Result<toml::Table, toml::de::Error>)
    ensures
        match res {
            Ok(t) => toml_parse_document(text@) == Some(toml_table_entries(t)),
            Err(_) => toml_parse_document(text@) is None,
        },
{
    toml::from_str::<toml::Table>(text)
}

/// Looks `key` up with `toml::map::Map::get` and reports the value found,
/// telling the variants of `toml::Value` apart.
/// Claimed: `None` exactly when no entry has the key; otherwise the report
/// of the value stored under it.
#[verifier::external_body]
pub(crate) fn table_lookup<'a>(t: &'a toml::Table, key: &str) -> (res: Option<TomlNode<'a>>)
    ensures
        match res {
            None => entry_lookup(toml_table_entries(*t), key@) is None,
            Some(node) => entry_lookup(toml_table_entries(*t), key@) matches Some(v) && node_reports(
                node,
                v,
            ),
        },
{
    match t.get(key) {
        None => None,
        Some(toml::Value::String(s)) => Some(TomlNode::Str(s)),
        Some(toml::Value::Integer(i)) => Some(TomlNode::Int(*i)),
        Some(toml::Value::Float(_)) => Some(TomlNode::Float),
        Some(toml::Value::Boolean(b)) => Some(TomlNode::Bool(*b)),
        Some(toml::Value::Datetime(_)) => Some(TomlNode::Datetime),
        Some(toml::Value::Array(a)) => Some(TomlNode::Array(a)),
        Some(toml::Value::Table(inner)) => Some(TomlNode::Table(inner)),
    }
}

/// The number of entries, from `toml::map::Map::len`.
#[verifier::external_body]
pub(crate) fn table_len(t: &toml::Table) -> (n: usize)
    ensures
        n == toml_table_entries(*t).len(),
{
    t.len()
}

/// The key of the first entry, from `toml::map::Map::keys`. Claimed:
/// `None` exactly for an empty table.
#[verifier::external_body]
pub(crate) fn table_first_key(t: &toml::Table) -> (res: Option<String>)
    ensures
        match res {
            None => toml_table_entries(*t).len() == 0,
            Some(k) => toml_table_entries(*t).len() > 0 && toml_table_entries(*t)[0].0 == k@,
        },
{
    t.keys().next().cloned()
}

/// An empty table, from `toml::map::Map::new`.
#[verifier::external_body]
pub(crate) fn table_new() -> (t: toml::Table)
    ensures
        toml_table_entries(t) == Seq::<(Seq<char>, TomlValue)>::empty(),
{
    toml::Table::new()
}

/// Stores a scalar with `toml::map::Map::insert`. Claimed: an existing key
/// keeps its place and takes the new value, a new key is appended (the
/// order kept under the crate's `preserve_order` feature).
#[verifier::external_body]
pub(crate) fn table_insert(t: &mut toml::Table, key: String, value: TomlScalar)
    ensures
        toml_table_entries(*final(t)) == entries_insert(
            toml_table_entries(*old(t)),
            key@,
            scalar_model(value),
        ),
{
    let v = match value {
        TomlScalar::Int(i) => toml::Value::Integer(i),
        TomlScalar::Str(s) => toml::Value::String(s),
        TomlScalar::Bool(b) => toml::Value::Boolean(b),
    };
    t.insert(key, v);
}

/// Renders a table of scalars with `toml::to_string_pretty`. Claimed: such
/// a table always renders, the text depends on the entries alone, and
/// `toml::from_str` reads the same entries back from it.
#[verifier::external_body]
pub(crate) fn render_pretty(t: &toml::Table) -> (res: Result<String, toml::ser::Error>)
    requires
        is_flat_table(toml_table_entries(*t)),
    ensures
        res is Ok,
        res matches Ok(s) ==> s@ == toml_render_pretty(toml_table_entries(*t)),
        res matches Ok(s) ==> toml_parse_document(s@) == Some(toml_table_entries(*t)),
{
    toml::to_string_pretty(t)
}

} // verus!
