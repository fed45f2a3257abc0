//! The parsed document, as the `toml` crate hands it over.
//!
//! A parsed value is opaque here. What it stands for is a [`Node`]; the
//! functions below are the only way from one to the other, and what they say
//! of the `toml` crate is taken on trust.

use vstd::prelude::*;
use crate::command::texts;

verus! {

/// `toml::Value`, a parsed value of any kind. Nothing inside it is visible here.
#[verifier::external_type_specification]
#[verifier::external_body]
pub struct ExValue(toml::Value);

/// `toml::map::Map`, of which `toml::Table` is the one used form: a parsed
/// table. Nothing inside it is visible here.
#[verifier::external_type_specification]
#[verifier::external_body]
#[verifier::reject_recursive_types(K)]
#[verifier::reject_recursive_types(V)]
pub struct ExMap<K, V>(toml::map::Map<K, V>);

/// `toml::de::Error`, what the parser says of a text that it cannot read.
/// It is carried along unopened.
#[verifier::external_type_specification]
#[verifier::external_body]
pub struct ExError(toml::de::Error);

/// What a parsed value stands for, as far as a configuration reads it: a
/// string, an array, a table, or a value of another kind.
pub enum Node {
    Text(Seq<char>),
    List(Seq<Node>),
    Fields(Map<Seq<char>, Node>),
    Other,
}

/// What a parsed value stands for.
pub uninterp spec fn value_node(value: toml::Value) -> Node;

/// The entries of a parsed table, by key.
pub uninterp spec fn table_nodes(table: toml::Table) -> Map<Seq<char>, Node>;

/// The top-level table that a text parses to, or the parser's error.
pub uninterp spec fn document_of(text: Seq<char>) -> Result<Map<Seq<char>, Node>, toml::de::Error>;

/// The nodes of a sequence of parsed values, in order.
pub open spec fn nodes_of(values: Seq<toml::Value>) -> Seq<Node> {
    values.map_values(|v: toml::Value| value_node(v))
}

/// Calls `toml::de::from_str` for a `toml::Table`. Trusted: the outcome is a
/// function of the text alone, and a table that comes back holds the entries
/// of the document's top level.
#[verifier::external_body]
pub(crate) fn parse_document(text: &str) -> (r: Result<toml::Table, toml::de::Error>)
    ensures
        match r {
            Ok(table) => document_of(text@) == Ok::<Map<Seq<char>, Node>, toml::de::Error>(
                table_nodes(table),
            ),
            Err(error) => document_of(text@) == Err::<Map<Seq<char>, Node>, toml::de::Error>(
                error,
            ),
        },
{
    toml::de::from_str::<toml::Table>(text)
}

/// Calls `toml::map::Map::get`. Trusted: it finds the value under the key
/// exactly where the table has that key.
#[verifier::external_body]
pub(crate) fn table_get<'a>(table: &'a toml::Table, key: &str) -> (r: Option<&'a toml::Value>)
    ensures
        match r {
            Some(value) => table_nodes(*table).contains_key(key@) && value_node(*value)
                == table_nodes(*table)[key@],
            None => !table_nodes(*table).contains_key(key@),
        },
{
    table.get(key)
}

/// Calls `toml::map::Map::keys`. Trusted: the keys that it yields are those of
/// the table, all of them.
#[verifier::external_body]
pub(crate) fn table_keys(table: &toml::Table) -> (r: Vec<String>)
    ensures
        texts(r@).to_set() == table_nodes(*table).dom(),
{
    table.keys().cloned().collect()
}

/// Calls `toml::Value::as_str`. Trusted: it gives the text of a string and
/// nothing for a value of another kind.
#[verifier::external_body]
pub(crate) fn value_text<'a>(value: &'a toml::Value) -> (r: Option<&'a str>)
    ensures
        match r {
            Some(text) => value_node(*value) == Node::Text(text@),
            None => !(value_node(*value) is Text),
        },
{
    value.as_str()
}

/// Calls `toml::Value::as_array`. Trusted: it gives the items of an array, in
/// order, and nothing for a value of another kind.
#[verifier::external_body]
pub(crate) fn value_items<'a>(value: &'a toml::Value) -> (r: Option<&'a Vec<toml::Value>>)
    ensures
        match r {
            Some(items) => value_node(*value) == Node::List(nodes_of(items@)),
            None => !(value_node(*value) is List),
        },
{
    value.as_array()
}

/// Calls `toml::Value::as_table`. Trusted: it gives the table of a table value
/// and nothing for a value of another kind.
#[verifier::external_body]
pub(crate) fn value_fields<'a>(value: &'a toml::Value) -> (r: Option<&'a toml::Table>)
    ensures
        match r {
            Some(table) => value_node(*value) == Node::Fields(table_nodes(*table)),
            None => !(value_node(*value) is Fields),
        },
{
    value.as_table()
}

} // verus!
