//! Spans of time.
use crate::error::ParseError;
use crate::text::{
    decimal_text, lemma_numeral_round_trip, numeral_of, push_decimal, read_numeral,
};
use vstd::prelude::*;

verus! {

/// A span of time, counted in whole seconds.
///
/// A configuration writes a span as an integer; once read, it is held as a
/// `Duration`, which is compared with other spans and never with plain
/// numbers.
#[derive(Clone, Copy, Debug, PartialEq, Eq, Hash, Structural)]
pub struct Duration {
    /// The seconds of the span.
    pub secs: u64,
}

impl Duration {
    /// The span that the integer `seconds` stands for in a configuration:
    /// none where the integer is negative or beyond the range of a span.
    pub open spec fn of_integer(seconds: int) -> Option<Duration> {
        if 0 <= seconds <= u64::MAX {
            Some(Duration { secs: seconds as u64 })
        } else {
            None
        }
    }

    /// The text that writes the span: the decimal numeral of its seconds.
    pub open spec fn text(self) -> Seq<char> {
        decimal_text(self.secs as nat)
    }

    /// The span that `text` writes, if it writes one: a whole number of
    /// seconds, in digits alone.
    pub open spec fn from_text(text: Seq<char>) -> Option<Duration> {
        match numeral_of(text) {
            Some(secs) => Some(Duration { secs }),
            None => None,
        }
    }

    /// Reads a span from its text.  A text that is no whole number of
    /// seconds, or one too large for a span, is refused with
    /// [`ParseError::InvalidDuration`].
    pub fn parse(text: &str) -> (res: Result<Duration, ParseError>)
        ensures
            match Duration::from_text(text@) {
                Some(duration) => res == Ok::<Duration, ParseError>(duration),
                None => res == Err::<Duration, ParseError>(ParseError::InvalidDuration),
            },
    {
        match read_numeral(text) {
            Some(secs) => Ok(Duration { secs }),
            None => Err(ParseError::InvalidDuration),
        }
    }

    /// Writes the span.
    pub fn render(&self) -> (res: String)
        ensures
            res@ == self.text(),
    {
        let mut out = String::new();
        push_decimal(&mut out, self.secs);
        proof {
            assert(out@ =~= self.text());
        }
        out
    }

    /// The span of `secs` seconds.
    pub fn from_secs(secs: u64) -> (res: Duration)
        ensures
            res == (Duration { secs }),
    {
        Duration { secs }
    }

    /// The seconds of the span.
    pub fn as_secs(&self) -> (res: u64)
        ensures
            res == self.secs,
    {
        self.secs
    }

    /// Reads a span from the integer that stands for it in a configuration.
    pub fn from_integer(seconds: i64) -> (res: Option<Duration>)
        ensures
            res == Duration::of_integer(seconds as int),
    {
        if seconds < 0 {
            None
        } else {
            Some(Duration { secs: seconds as u64 })
        }
    }
}

/// Reading the seconds of a span as an integer gives the span back, and so
/// does reading the text that was written for it.
pub proof fn lemma_duration_round_trip(duration: Duration)
    ensures
        Duration::of_integer(duration.secs as int) == Some(duration),
        Duration::from_text(duration.text()) == Some(duration),
{
    lemma_numeral_round_trip(duration.secs);
}

} // verus!
