//! A TOML document as a tree of values, and the parser that reads one from
//! text.
//!
//! The text is parsed by the `toml` crate.  What it returns is copied into
//! [`Item`], a tree that the rest of the library can take apart.  The
//! parser and the copy descend once for each level of nesting, so a text is
//! measured first, and only one that nests no deeper than
//! [`MAX_NESTING`](crate::nesting::MAX_NESTING) is handed to them.
use crate::error::{ParseError, ParseErrorView};
use crate::nesting::{nests_too_deep, too_deep};
use vstd::prelude::*;

verus! {

/// `toml::Value`: a TOML value as the `toml` crate holds it.
#[verifier::external_type_specification]
#[verifier::external_body]
pub struct ExTomlValue(toml::Value);

/// A TOML value.
///
/// A table holds its entries in the order in which they are walked, each
/// with its key.  The number of a float and the instant of a date are not
/// kept: no setting takes either.
#[derive(Debug, PartialEq)]
pub enum Item {
    /// A string.
    Text(String),
    /// An integer.
    Integer(i64),
    /// A float.
    Float,
    /// `true` or `false`.
    Boolean(bool),
    /// A date, a time, or both.
    Datetime,
    /// An array.
    Array(Vec<Item>),
    /// A table.
    Table(Vec<(String, Item)>),
}

/// What a [`Item`] holds.
pub enum Node {
    /// A string.
    Text(Seq<char>),
    /// An integer.
    Integer(int),
    /// A float.
    Float,
    /// `true` or `false`.
    Boolean(bool),
    /// A date, a time, or both.
    Datetime,
    /// An array, with its items in order.
    Array(Seq<Node>),
    /// A table, with its entries in order.
    Table(Seq<(Seq<char>, Node)>),
}

/// What the items of an array hold, in order.
pub open spec fn items_view(items: Seq<Item>) -> Seq<Node>
    decreases items,
{
    Seq::new(
        items.len(),
        |i: int|
            if 0 <= i < items.len() {
                items[i]@
            } else {
                Node::Float
            },
    )
}

/// What the entries of a table hold, in order.
pub open spec fn entries_view(entries: Seq<(String, Item)>) -> Seq<(Seq<char>, Node)>
    decreases entries,
{
    Seq::new(
        entries.len(),
        |i: int|
            if 0 <= i < entries.len() {
                (entries[i].0@, entries[i].1@)
            } else {
                (Seq::empty(), Node::Float)
            },
    )
}

impl View for Item {
    type V = Node;

    open spec fn view(&self) -> Node
        decreases self,
    {
        match self {
            Item::Text(s) => Node::Text(s@),
            Item::Integer(i) => Node::Integer(*i as int),
            Item::Float => Node::Float,
            Item::Boolean(b) => Node::Boolean(*b),
            Item::Datetime => Node::Datetime,
            Item::Array(items) => Node::Array(items_view(items@)),
            Item::Table(entries) => Node::Table(entries_view(entries@)),
        }
    }
}

/// The document that the `toml` crate reads from `text`, or, where it
/// refuses the text, the words in which it says why.
pub uninterp spec fn toml_document(text: Seq<char>) -> Result<Node, Seq<char>>;

/// What a value of the `toml` crate holds: its strings, integers and
/// booleans as they are, the items of an array in order, and the entries of
/// a table in the order in which the table hands them out.
pub uninterp spec fn toml_content(raw: toml::Value) -> Node;

/// Calls `toml::Value::from_str`, which reads `text` as a TOML document,
/// and `to_string` on the error with which it refuses a text.
///
/// The parser descends once for each array or table within another, and
/// once for each part of a dotted key; a text in which they run to thousands
/// exhausts the stack.  The demand keeps them to a few dozen.  The contract
/// names what comes back and claims no more than that the same text always
/// reads as the same document, or is refused in the same words.
#[verifier::external_body]
fn read_document(text: &str) -> (res: Result<toml::Value, String>)
    requires
        !too_deep(text@),
    ensures
        match res {
            Ok(raw) => toml_document(text@) == Ok::<Node, Seq<char>>(toml_content(raw)),
            Err(message) => toml_document(text@) == Err::<Node, Seq<char>>(message@),
        },
{
    match text.parse::<toml::Value>() {
        Ok(raw) => Ok(raw),
        Err(error) => Err(error.to_string()),
    }
}

/// Copies a `toml::Value` into an [`Item`], variant by variant: a string,
/// an integer and a boolean as they are, a float and a date without what
/// they hold, the items of an array in order, and the entries of a table in
/// the order of their keys, in which the table hands them out.
///
/// The contract claims that the copy holds what the value held.
#[verifier::external_body]
fn lift(raw: toml::Value) -> (res: Item)
    ensures
        res@ == toml_content(raw),
{
    match raw {
        toml::Value::String(s) => Item::Text(s),
        toml::Value::Integer(i) => Item::Integer(i),
        toml::Value::Float(_) => Item::Float,
        toml::Value::Boolean(b) => Item::Boolean(b),
        toml::Value::Datetime(_) => Item::Datetime,
        toml::Value::Array(items) => Item::Array(items.into_iter().map(lift).collect()),
        toml::Value::Table(entries) => Item::Table(
            entries.into_iter().map(|(k, v)| (k, lift(v))).collect(),
        ),
    }
}

/// What reading `text` as a TOML document gives: the document, or why
/// there is none.
pub open spec fn parsed(text: Seq<char>) -> Result<Node, ParseErrorView> {
    if too_deep(text) {
        Err(ParseErrorView::TooDeep)
    } else {
        match toml_document(text) {
            Ok(document) => Ok(document),
            Err(message) => Err(ParseErrorView::Syntax(message)),
        }
    }
}

/// Reads `text` as a TOML document.
///
/// A text that nests too deep is refused with [`ParseError::TooDeep`]
/// before it is parsed.  A text that is no TOML document is refused with
/// [`ParseError::Syntax`], in the parser's words.
pub fn parse(text: &str) -> (res: Result<Item, ParseError>)
    ensures
        match parsed(text@) {
            Ok(document) => res matches Ok(found) && found@ == document,
            Err(error) => res matches Err(found) && found@ == error,
        },
{
    if nests_too_deep(text) {
        return Err(ParseError::TooDeep);
    }
    match read_document(text) {
        Ok(raw) => Ok(lift(raw)),
        Err(message) => Err(ParseError::Syntax(message)),
    }
}

} // verus!
