//! Why a configuration could not be read from a document.
use crate::schema::{Field, Kind, Section};
use vstd::prelude::*;
use vstd::string::*;

verus! {

/// The reason for which a text is no configuration.
#[derive(Debug, PartialEq, Eq)]
pub enum ParseError {
    /// The text nests deeper than a text is parsed.
    TooDeep,
    /// The text is not well-formed TOML; the parser says why.
    Syntax(String),
    /// What stands for a section, or for the document, is not a table.
    NotATable(Section),
    /// A table of the configuration holds a key that the schema does not
    /// have for it.
    UnknownField(Section, String),
    /// The value of a setting is not of the setting's kind.
    WrongType(Field),
    /// The integer of a setting is negative or too large for it.
    OutOfRange(Field),
    /// A string names no environment.
    UnknownEnvironment,
    /// A string is no network address.
    InvalidAddress,
    /// A string is no span of time.
    InvalidDuration,
}

/// What a [`ParseError`] holds.
pub enum ParseErrorView {
    /// The text nests deeper than a text is parsed.
    TooDeep,
    /// The text is not well-formed TOML; the parser says why.
    Syntax(Seq<char>),
    /// What stands for a section, or for the document, is not a table.
    NotATable(Section),
    /// A table holds a key that the schema does not have for it.
    UnknownField(Section, Seq<char>),
    /// The value of a setting is not of the setting's kind.
    WrongType(Field),
    /// The integer of a setting is negative or too large for it.
    OutOfRange(Field),
    /// A string names no environment.
    UnknownEnvironment,
    /// A string is no network address.
    InvalidAddress,
    /// A string is no span of time.
    InvalidDuration,
}

impl View for ParseError {
    type V = ParseErrorView;

    open spec fn view(&self) -> ParseErrorView {
        match self {
            ParseError::TooDeep => ParseErrorView::TooDeep,
            ParseError::Syntax(message) => ParseErrorView::Syntax(message@),
            ParseError::NotATable(section) => ParseErrorView::NotATable(*section),
            ParseError::UnknownField(section, key) => ParseErrorView::UnknownField(*section, key@),
            ParseError::WrongType(field) => ParseErrorView::WrongType(*field),
            ParseError::OutOfRange(field) => ParseErrorView::OutOfRange(*field),
            ParseError::UnknownEnvironment => ParseErrorView::UnknownEnvironment,
            ParseError::InvalidAddress => ParseErrorView::InvalidAddress,
            ParseError::InvalidDuration => ParseErrorView::InvalidDuration,
        }
    }
}

/// The path of the key `key` of `section`: the key alone at the top level,
/// else the section's key, a dot, and the key.
pub open spec fn path_of(section: Section, key: Seq<char>) -> Seq<char> {
    if section == Section::Root {
        key
    } else {
        section.key() + "."@ + key
    }
}

/// How a kind of value is called in a description.
pub open spec fn kind_phrase(kind: Kind) -> Seq<char> {
    match kind {
        Kind::Text => "a string"@,
        Kind::Integer => "an integer"@,
        Kind::Boolean => "a boolean"@,
        Kind::TextArray => "an array of strings"@,
    }
}

impl ParseErrorView {
    /// The description of the error: the path of the key at which it
    /// stands, where it stands at one, and what is wrong there.
    pub open spec fn description(self) -> Seq<char> {
        match self {
            ParseErrorView::TooDeep => "the text nests too deep"@,
            ParseErrorView::Syntax(message) => message,
            ParseErrorView::NotATable(section) => if section == Section::Root {
                "the document is not a table"@
            } else {
                section.key() + ": expected a table"@
            },
            ParseErrorView::UnknownField(section, key) => path_of(section, key)
                + ": unknown field"@,
            ParseErrorView::WrongType(field) => path_of(field.section(), field.key())
                + ": expected "@ + kind_phrase(field.kind()),
            ParseErrorView::OutOfRange(field) => path_of(field.section(), field.key())
                + ": integer out of range"@,
            ParseErrorView::UnknownEnvironment => "unknown environment"@,
            ParseErrorView::InvalidAddress => "invalid address"@,
            ParseErrorView::InvalidDuration => "invalid duration"@,
        }
    }
}

/// Appends the path of the key `key` of `section` to `out`.
fn push_path(out: &mut String, section: Section, key: &str)
    ensures
        final(out)@ == old(out)@ + path_of(section, key@),
{
    if section != Section::Root {
        out.append(section.name());
        out.append(".");
    }
    out.append(key);
    proof {
        assert(final(out)@ =~= old(out)@ + path_of(section, key@));
    }
}

/// How a kind of value is called, as [`kind_phrase`] gives it.
fn phrase_of(kind: Kind) -> (res: &'static str)
    ensures
        res@ == kind_phrase(kind),
{
    match kind {
        Kind::Text => "a string",
        Kind::Integer => "an integer",
        Kind::Boolean => "a boolean",
        Kind::TextArray => "an array of strings",
    }
}

impl Clone for ParseError {
    fn clone(&self) -> (res: ParseError)
        ensures
            res@ == self@,
    {
        match self {
            ParseError::TooDeep => ParseError::TooDeep,
            ParseError::Syntax(message) => ParseError::Syntax(message.clone()),
            ParseError::NotATable(section) => ParseError::NotATable(*section),
            ParseError::UnknownField(section, key) => ParseError::UnknownField(
                *section,
                key.clone(),
            ),
            ParseError::WrongType(field) => ParseError::WrongType(*field),
            ParseError::OutOfRange(field) => ParseError::OutOfRange(*field),
            ParseError::UnknownEnvironment => ParseError::UnknownEnvironment,
            ParseError::InvalidAddress => ParseError::InvalidAddress,
            ParseError::InvalidDuration => ParseError::InvalidDuration,
        }
    }
}

impl ParseError {
    /// Describes the error for a reader.
    pub fn message(&self) -> (res: String)
        ensures
            res@ == self@.description(),
    {
        let mut out = String::new();
        match self {
            ParseError::TooDeep => {
                out.append("the text nests too deep");
            },
            ParseError::Syntax(message) => {
                out.append(message.as_str());
            },
            ParseError::NotATable(section) => {
                if *section == Section::Root {
                    out.append("the document is not a table");
                } else {
                    out.append(section.name());
                    out.append(": expected a table");
                }
            },
            ParseError::UnknownField(section, key) => {
                push_path(&mut out, *section, key.as_str());
                out.append(": unknown field");
            },
            ParseError::WrongType(field) => {
                push_path(&mut out, field.table(), field.name());
                out.append(": expected ");
                out.append(phrase_of(field.value_kind()));
            },
            ParseError::OutOfRange(field) => {
                push_path(&mut out, field.table(), field.name());
                out.append(": integer out of range");
            },
            ParseError::UnknownEnvironment => {
                out.append("unknown environment");
            },
            ParseError::InvalidAddress => {
                out.append("invalid address");
            },
            ParseError::InvalidDuration => {
                out.append("invalid duration");
            },
        }
        proof {
            assert(out@ =~= self@.description());
        }
        out
    }
}

} // verus!
