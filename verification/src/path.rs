//! Paths in the file system.
use crate::error::ParseError;
use vstd::prelude::*;
use vstd::string::*;

verus! {

/// A path in the file system, as the configuration writes it.
///
/// Any string is a path.  Whether anything exists at the path is for the one
/// who opens it to find out.
#[derive(Debug, Eq, Hash)]
pub struct FilePath {
    /// The text of the path.
    pub text: String,
}

impl View for FilePath {
    type V = Seq<char>;

    open spec fn view(&self) -> Seq<char> {
        self.text@
    }
}

impl FilePath {
    /// Reads a path from its text.  Every text is accepted as it is.
    pub fn parse(text: &str) -> (res: Result<FilePath, ParseError>)
        ensures
            res matches Ok(path) && path@ == text@,
    {
        Ok(FilePath { text: String::from_str(text) })
    }

    /// Writes the text of the path.
    pub fn render(&self) -> (res: String)
        ensures
            res@ == self@,
    {
        self.text.clone()
    }

    /// The text of the path.
    pub fn as_str(&self) -> (res: &str)
        ensures
            res@ == self@,
    {
        self.text.as_str()
    }

}

impl PartialEq for FilePath {
    /// Whether the two paths have the same text.
    fn eq(&self, other: &FilePath) -> (res: bool) {
        self.text == other.text
    }
}

impl vstd::std_specs::cmp::PartialEqSpecImpl for FilePath {
    open spec fn obeys_eq_spec() -> bool {
        true
    }

    open spec fn eq_spec(&self, other: &FilePath) -> bool {
        self@ == other@
    }
}

impl Clone for FilePath {
    fn clone(&self) -> (res: FilePath)
        ensures
            res@ == self@,
    {
        FilePath { text: self.text.clone() }
    }
}

impl From<&str> for FilePath {
    /// The path that `text` writes.
    fn from(text: &str) -> (res: FilePath)
        ensures
            res@ == text@,
    {
        FilePath { text: String::from_str(text) }
    }
}

impl vstd::std_specs::convert::FromSpecImpl<&str> for FilePath {
    open spec fn obeys_from_spec() -> bool {
        false
    }

    open spec fn from_spec(text: &str) -> FilePath {
        arbitrary()
    }
}

} // verus!
