//! Loads a configuration that is written in TOML, from a string or from
//! what was read from a file.
use crate::config::partial::{Config, ConfigView};
use crate::config::{lemma_resolve_empty, lemma_resolve_settings, resolved, settings_of};
use crate::decode::{decode, decoded, lemma_empty_document};
use crate::defaults;
use crate::encode::{document_of, lemma_document_round_trip};
use crate::document::{parse, parsed, Node};
use crate::error::{ParseError, ParseErrorView};
use crate::render::rendered;
use vstd::prelude::*;

verus! {

/// `std::io::Error`: why a file could not be read.
#[verifier::external_type_specification]
#[verifier::external_body]
pub struct ExIoError(std::io::Error);

/// Why a configuration could not be loaded.
#[derive(Debug)]
pub enum Error {
    /// The file that holds the configuration could not be read.
    IOError(std::io::Error),
    /// What was read is no configuration.
    ParseError(ParseError),
}

/// Calls `to_string` on a `std::io::Error`, which describes the error.
#[verifier::external_body]
fn describe_io_error(error: &std::io::Error) -> (res: String)
{
    error.to_string()
}

impl Error {
    /// Describes the error for a reader: an error of reading as the system
    /// describes it, an error in the text as [`ParseError::message`] does.
    pub fn message(&self) -> (res: String)
        ensures
            match self {
                Error::IOError(_) => true,
                Error::ParseError(error) => res@ == error@.description(),
            },
    {
        match self {
            Error::IOError(error) => describe_io_error(error),
            Error::ParseError(error) => error.message(),
        }
    }
}

/// The partial configuration that `text` writes, or why it writes none:
/// why the text is no TOML document, or the first error in the document.
pub open spec fn loaded(text: Seq<char>) -> Result<ConfigView, ParseErrorView> {
    match parsed(text) {
        Ok(document) => decoded(document),
        Err(error) => Err(error),
    }
}

/// A text that is read as the document that holds nothing loads as the
/// configuration of which nothing is set, which resolves to the defaults.
pub proof fn lemma_empty_document_loads_nothing(text: Seq<char>)
    ensures
        parsed(text) == Ok::<Node, ParseErrorView>(Node::Table(Seq::empty())) ==> loaded(text)
            == Ok::<ConfigView, ParseErrorView>(ConfigView::empty()),
        resolved(ConfigView::empty()) == defaults::config(),
{
    lemma_empty_document();
    lemma_resolve_empty();
}

/// Where the text that is written for a partial configuration is read as
/// the document that is written for it, the text loads as that
/// configuration; and where the configuration gives every setting of a
/// resolved one, it resolves to that one.
pub proof fn lemma_rendered_text_loads_back(config: ConfigView, full: crate::config::ConfigView)
    ensures
        parsed(rendered(config)) == Ok::<Node, ParseErrorView>(document_of(config)) ==> loaded(
            rendered(config),
        ) == Ok::<ConfigView, ParseErrorView>(config),
        resolved(settings_of(full)) == full,
{
    lemma_document_round_trip(config);
    lemma_resolve_settings(full);
}

/// Whether `res` is the configuration that `expected` holds, or a
/// [`Error::ParseError`] with the error that `expected` holds.
pub open spec fn is_loaded(res: Result<Config, Error>, expected: Result<ConfigView, ParseErrorView>)
    -> bool {
    match expected {
        Ok(config) => res matches Ok(found) && found@ == config,
        Err(error) => res matches Err(Error::ParseError(found)) && found@ == error,
    }
}

/// Loads a partial configuration from a string written in TOML.
///
/// The string is parsed as a TOML document and the document is read as
/// [`decode`] reads it.  Every failure is a [`Error::ParseError`].
pub fn from_str(contents: &str) -> (res: Result<Config, Error>)
    ensures
        is_loaded(res, loaded(contents@)),
{
    match parse(contents) {
        Ok(document) => match decode(&document) {
            Ok(config) => Ok(config),
            Err(error) => Err(Error::ParseError(error)),
        },
        Err(error) => Err(Error::ParseError(error)),
    }
}

/// Loads a partial configuration from what reading a file gave.
///
/// Where the file could not be read, the error of reading is handed on as
/// a [`Error::IOError`]; else its contents are loaded as [`from_str`] loads
/// them.
pub fn from_file(contents: Result<String, std::io::Error>) -> (res: Result<Config, Error>)
    ensures
        match contents {
            Ok(text) => is_loaded(res, loaded(text@)),
            Err(error) => res == Err::<Config, Error>(Error::IOError(error)),
        },
{
    match contents {
        Ok(text) => from_str(text.as_str()),
        Err(error) => Err(Error::IOError(error)),
    }
}

} // verus!
