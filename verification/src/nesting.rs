//! How deep the values and the keys of a TOML text nest.
//!
//! A parser that descends once for each level of nesting can be handed only
//! texts that nest no deeper than its stack allows.  This module measures a
//! text before it is parsed.  It walks the text once, telling strings and
//! comments from the rest, and counts outside of them the brackets that are
//! open and the dots of the line.  A configuration nests three levels deep
//! at most, so a text beyond the limit is no configuration in any case.
use crate::text::chars_of;
use vstd::prelude::*;

verus! {

/// The most open brackets and dots of a line, together, with which a text
/// is still parsed.
pub const MAX_NESTING: usize = 32;

/// Where in a text a character stands.
#[derive(Clone, Copy, Debug, PartialEq, Eq, Structural)]
pub enum Mode {
    /// Among keys and values.
    Code,
    /// In a comment, which ends with its line.
    Comment,
    /// In a string in double quotes, on one line.
    Basic,
    /// In a string in single quotes, on one line.
    Literal,
    /// In a string in three double quotes.
    MultiBasic,
    /// In a string in three single quotes.
    MultiLiteral,
}

/// What is known after a part of a text was walked.
pub struct Scan {
    /// Where the next character stands.
    pub mode: Mode,
    /// Whether the next character follows a backslash in a string.
    pub escaped: bool,
    /// How many of the next characters belong to a mark of three quotes
    /// that was seen already.
    pub skip: nat,
    /// How many brackets are open.
    pub depth: nat,
    /// How many dots the line holds so far outside strings and comments.
    pub dots: nat,
}

impl Scan {
    /// What is known before anything was walked.
    pub open spec fn start() -> Scan {
        Scan { mode: Mode::Code, escaped: false, skip: 0, depth: 0, dots: 0 }
    }

    /// The open brackets and the dots of the line, together.
    pub open spec fn level(self) -> nat {
        self.depth + self.dots
    }
}

/// The character of `s` at `i`, or a space beyond the end of `s`.
pub open spec fn char_at(s: Seq<char>, i: int) -> char {
    if 0 <= i < s.len() {
        s[i]
    } else {
        ' '
    }
}

/// What is known after the character `c`, which `next` and `after` follow,
/// given what was known before it.
pub open spec fn step(before: Scan, c: char, next: char, after: char) -> Scan {
    let triple = next == c && after == c;
    if before.skip > 0 {
        Scan { skip: (before.skip - 1) as nat, ..before }
    } else {
        match before.mode {
            Mode::Code => if c == '#' {
                Scan { mode: Mode::Comment, ..before }
            } else if c == '"' {
                if triple {
                    Scan { mode: Mode::MultiBasic, skip: 2, ..before }
                } else {
                    Scan { mode: Mode::Basic, ..before }
                }
            } else if c == '\'' {
                if triple {
                    Scan { mode: Mode::MultiLiteral, skip: 2, ..before }
                } else {
                    Scan { mode: Mode::Literal, ..before }
                }
            } else if c == '[' || c == '{' {
                Scan { depth: before.depth + 1, ..before }
            } else if c == ']' || c == '}' {
                Scan {
                    depth: if before.depth > 0 {
                        (before.depth - 1) as nat
                    } else {
                        0
                    },
                    ..before
                }
            } else if c == '.' {
                Scan { dots: before.dots + 1, ..before }
            } else if c == '\n' {
                Scan { dots: 0, ..before }
            } else {
                before
            },
            Mode::Comment => if c == '\n' {
                Scan { mode: Mode::Code, dots: 0, ..before }
            } else {
                before
            },
            Mode::Basic => if c == '\n' {
                Scan { mode: Mode::Code, escaped: false, dots: 0, ..before }
            } else if before.escaped {
                Scan { escaped: false, ..before }
            } else if c == '\\' {
                Scan { escaped: true, ..before }
            } else if c == '"' {
                Scan { mode: Mode::Code, ..before }
            } else {
                before
            },
            Mode::Literal => if c == '\n' {
                Scan { mode: Mode::Code, dots: 0, ..before }
            } else if c == '\'' {
                Scan { mode: Mode::Code, ..before }
            } else {
                before
            },
            Mode::MultiBasic => if before.escaped {
                Scan { escaped: false, ..before }
            } else if c == '\\' {
                Scan { escaped: true, ..before }
            } else if c == '"' && triple {
                Scan { mode: Mode::Code, skip: 2, ..before }
            } else {
                before
            },
            Mode::MultiLiteral => if c == '\'' && triple {
                Scan { mode: Mode::Code, skip: 2, ..before }
            } else {
                before
            },
        }
    }
}

/// What is known after the first `n` characters of `s` were walked.
pub open spec fn scanned(s: Seq<char>, n: nat) -> Scan
    decreases n,
{
    if n == 0 {
        Scan::start()
    } else {
        step(
            scanned(s, (n - 1) as nat),
            char_at(s, n - 1),
            char_at(s, n as int),
            char_at(s, n as int + 1),
        )
    }
}

/// Whether `s` nests too deep to be parsed: whether, somewhere in it, more
/// than [`MAX_NESTING`] brackets are open and dots stand on the line,
/// outside strings and comments.
pub open spec fn too_deep(s: Seq<char>) -> bool {
    exists|n: nat| n <= s.len() && #[trigger] scanned(s, n).level() > MAX_NESTING
}

/// Each character opens one bracket or adds one dot at most, so a text of
/// no more than [`MAX_NESTING`] characters never nests too deep; the empty
/// text does not.
pub proof fn lemma_short_text_is_not_deep(s: Seq<char>)
    requires
        s.len() <= MAX_NESTING,
    ensures
        !too_deep(s),
{
    assert forall|n: nat| n <= s.len() implies #[trigger] scanned(s, n).level() <= MAX_NESTING by {
        lemma_level_is_bounded(s, n);
    }
}

/// After `n` characters, no more than `n` brackets are open and dots
/// counted.
pub proof fn lemma_level_is_bounded(s: Seq<char>, n: nat)
    ensures
        scanned(s, n).level() <= n,
    decreases n,
{
    if n > 0 {
        lemma_level_is_bounded(s, (n - 1) as nat);
    }
}

/// The character of `chars` at `i`, or a space beyond the end.
fn peek(chars: &Vec<char>, i: usize) -> (res: char)
    ensures
        res == char_at(chars@, i as int),
{
    if i < chars.len() {
        chars[i]
    } else {
        ' '
    }
}

/// Whether `text` nests too deep to be parsed.
pub fn nests_too_deep(text: &str) -> (res: bool)
    ensures
        res == too_deep(text@),
{
    let chars = chars_of(text);
    let ghost s = chars@;
    let mut mode = Mode::Code;
    let mut escaped = false;
    let mut skip: usize = 0;
    let mut depth: usize = 0;
    let mut dots: usize = 0;
    let mut at: usize = 0;
    while at < chars.len()
        invariant
            at <= chars.len(),
            s == chars@,
            s == text@,
            scanned(s, at as nat) == (Scan {
                mode,
                escaped,
                skip: skip as nat,
                depth: depth as nat,
                dots: dots as nat,
            }),
            skip <= 2,
            depth + dots <= MAX_NESTING,
            forall|n: nat| n <= at ==> #[trigger] scanned(s, n).level() <= MAX_NESTING,
        decreases chars.len() - at,
    {
        let c = chars[at];
        let next = if at < usize::MAX {
            peek(&chars, at + 1)
        } else {
            ' '
        };
        let after = if at < usize::MAX - 1 {
            peek(&chars, at + 2)
        } else {
            ' '
        };
        let triple = next == c && after == c;
        if skip > 0 {
            skip = skip - 1;
        } else {
            match mode {
                Mode::Code => {
                    if c == '#' {
                        mode = Mode::Comment;
                    } else if c == '"' {
                        if triple {
                            mode = Mode::MultiBasic;
                            skip = 2;
                        } else {
                            mode = Mode::Basic;
                        }
                    } else if c == '\'' {
                        if triple {
                            mode = Mode::MultiLiteral;
                            skip = 2;
                        } else {
                            mode = Mode::Literal;
                        }
                    } else if c == '[' || c == '{' {
                        depth = depth + 1;
                    } else if c == ']' || c == '}' {
                        if depth > 0 {
                            depth = depth - 1;
                        }
                    } else if c == '.' {
                        dots = dots + 1;
                    } else if c == '\n' {
                        dots = 0;
                    }
                },
                Mode::Comment => {
                    if c == '\n' {
                        mode = Mode::Code;
                        dots = 0;
                    }
                },
                Mode::Basic => {
                    if c == '\n' {
                        mode = Mode::Code;
                        escaped = false;
                        dots = 0;
                    } else if escaped {
                        escaped = false;
                    } else if c == '\\' {
                        escaped = true;
                    } else if c == '"' {
                        mode = Mode::Code;
                    }
                },
                Mode::Literal => {
                    if c == '\n' {
                        mode = Mode::Code;
                        dots = 0;
                    } else if c == '\'' {
                        mode = Mode::Code;
                    }
                },
                Mode::MultiBasic => {
                    if escaped {
                        escaped = false;
                    } else if c == '\\' {
                        escaped = true;
                    } else if c == '"' && triple {
                        mode = Mode::Code;
                        skip = 2;
                    }
                },
                Mode::MultiLiteral => {
                    if c == '\'' && triple {
                        mode = Mode::Code;
                        skip = 2;
                    }
                },
            }
        }
        at = at + 1;
        assert(scanned(s, at as nat) == (Scan {
            mode,
            escaped,
            skip: skip as nat,
            depth: depth as nat,
            dots: dots as nat,
        }));
        if depth + dots > MAX_NESTING {
            assert(scanned(s, at as nat).level() > MAX_NESTING);
            return true;
        }
    }
    proof {
        assert(scanned(s, 0).level() == 0);
    }
    false
}

} // verus!
