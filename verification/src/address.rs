//! Network addresses.
use crate::error::ParseError;
use crate::text::{
    all_digits, chars_of, decimal_text, decimal_value, digit_of, digit_run, is_digit,
    lemma_canonical_numeral, lemma_decimal_text, lemma_decimal_value_prefix, lemma_digit_run,
    lemma_digit_run_is_digits, push_decimal,
};
use vstd::prelude::*;

verus! {

/// The address at which a node listens or is reached: an IPv4 host and a
/// port.
///
/// It is written as the four numbers of the host, with dots between them,
/// a colon, and the port: `127.0.0.1:21337`.
#[derive(Clone, Copy, Debug, Eq, Hash)]
pub struct NetworkAddress {
    /// The four numbers of the host, the first one first.
    pub host: [u8; 4],
    /// The port.
    pub port: u16,
}

/// The number of a host and how many characters write it, where `s` begins
/// with one: one to three digits that stand for at most 255, with no zero
/// before another digit.
pub open spec fn leading_octet(s: Seq<char>) -> Option<(u8, nat)> {
    let n = digit_run(s);
    let value = decimal_value(s.take(n as int));
    if 1 <= n <= 3 && (n == 1 || s[0] != '0') && value <= 255 {
        Some((value as u8, n))
    } else {
        None
    }
}

/// The number of a host that `s` begins with and what follows the character
/// `mark` behind it, where `s` begins with such a number and `mark` stands
/// right behind it.
#[verifier::opaque]
pub open spec fn octet_before(s: Seq<char>, mark: char) -> Option<(u8, Seq<char>)> {
    match leading_octet(s) {
        Some((value, n)) => if n < s.len() && s[n as int] == mark {
            Some((value, s.skip(n as int + 1)))
        } else {
            None
        },
        None => None,
    }
}

/// The port that `s` writes, where it writes one: one or more digits that
/// stand for at most 65535.
#[verifier::opaque]
pub open spec fn port_of(s: Seq<char>) -> Option<u16> {
    if s.len() >= 1 && all_digits(s) && decimal_value(s) <= 65535 {
        Some(decimal_value(s) as u16)
    } else {
        None
    }
}

impl NetworkAddress {
    /// The text that writes the host, with the colon behind it.
    pub open spec fn host_text(self) -> Seq<char> {
        decimal_text(self.host[0] as nat) + seq!['.'] + decimal_text(self.host[1] as nat)
            + seq!['.'] + decimal_text(self.host[2] as nat) + seq!['.'] + decimal_text(
            self.host[3] as nat,
        ) + seq![':']
    }

    /// The text that writes the address.
    pub open spec fn text(self) -> Seq<char> {
        self.host_text() + decimal_text(self.port as nat)
    }

    /// The address that `s` writes, if it writes one.
    pub open spec fn from_text(s: Seq<char>) -> Option<NetworkAddress> {
        match octet_before(s, '.') {
            Some((a, s1)) => match octet_before(s1, '.') {
                Some((b, s2)) => match octet_before(s2, '.') {
                    Some((c, s3)) => match octet_before(s3, ':') {
                        Some((d, s4)) => match port_of(s4) {
                            Some(port) => Some(NetworkAddress { host: [a, b, c, d], port }),
                            None => None,
                        },
                        None => None,
                    },
                    None => None,
                },
                None => None,
            },
            None => None,
        }
    }

    /// Reads an address from its text.  A text that writes no address is
    /// refused with [`ParseError::InvalidAddress`].
    pub fn parse(text: &str) -> (res: Result<NetworkAddress, ParseError>)
        ensures
            match NetworkAddress::from_text(text@) {
                Some(address) => res == Ok::<NetworkAddress, ParseError>(address),
                None => res == Err::<NetworkAddress, ParseError>(ParseError::InvalidAddress),
            },
    {
        let chars = chars_of(text);
        proof {
            assert(chars@.skip(0) =~= text@);
        }
        let a = match read_octet(&chars, 0, '.') {
            Some(found) => found,
            None => return Err(ParseError::InvalidAddress),
        };
        let b = match read_octet(&chars, a.1, '.') {
            Some(found) => found,
            None => return Err(ParseError::InvalidAddress),
        };
        let c = match read_octet(&chars, b.1, '.') {
            Some(found) => found,
            None => return Err(ParseError::InvalidAddress),
        };
        let d = match read_octet(&chars, c.1, ':') {
            Some(found) => found,
            None => return Err(ParseError::InvalidAddress),
        };
        match read_port(&chars, d.1) {
            Some(port) => Ok(NetworkAddress { host: [a.0, b.0, c.0, d.0], port }),
            None => Err(ParseError::InvalidAddress),
        }
    }

    /// Writes the address.
    pub fn render(&self) -> (res: String)
        ensures
            res@ == self.text(),
    {
        let mut out = String::new();
        push_decimal(&mut out, self.host[0] as u64);
        out.push('.');
        push_decimal(&mut out, self.host[1] as u64);
        out.push('.');
        push_decimal(&mut out, self.host[2] as u64);
        out.push('.');
        push_decimal(&mut out, self.host[3] as u64);
        out.push(':');
        push_decimal(&mut out, self.port as u64);
        proof {
            assert(out@ =~= self.text());
        }
        out
    }
}

impl PartialEq for NetworkAddress {
    /// Whether the two addresses have the same host and the same port.
    fn eq(&self, other: &NetworkAddress) -> (res: bool) {
        let same = self.host[0] == other.host[0] && self.host[1] == other.host[1] && self.host[2]
            == other.host[2] && self.host[3] == other.host[3] && self.port == other.port;
        proof {
            if same {
                assert(self.host =~= other.host);
            }
        }
        same
    }
}

impl vstd::std_specs::cmp::PartialEqSpecImpl for NetworkAddress {
    open spec fn obeys_eq_spec() -> bool {
        true
    }

    open spec fn eq_spec(&self, other: &NetworkAddress) -> bool {
        *self == *other
    }
}

impl std::str::FromStr for NetworkAddress {
    type Err = ParseError;

    /// Reads an address as [`NetworkAddress::parse`] does.
    fn from_str(text: &str) -> (res: Result<NetworkAddress, ParseError>)
        ensures
            match NetworkAddress::from_text(text@) {
                Some(address) => res == Ok::<NetworkAddress, ParseError>(address),
                None => res == Err::<NetworkAddress, ParseError>(ParseError::InvalidAddress),
            },
    {
        NetworkAddress::parse(text)
    }
}

/// Copies a list of addresses.
pub fn copy_addresses(addresses: &Vec<NetworkAddress>) -> (res: Vec<NetworkAddress>)
    ensures
        res@ == addresses@,
{
    let mut copy: Vec<NetworkAddress> = Vec::new();
    let mut at: usize = 0;
    while at < addresses.len()
        invariant
            at <= addresses.len(),
            copy@ == addresses@.take(at as int),
        decreases addresses.len() - at,
    {
        copy.push(addresses[at]);
        proof {
            assert(copy@ =~= addresses@.take(at + 1));
        }
        at = at + 1;
    }
    proof {
        assert(addresses@.take(at as int) =~= addresses@);
    }
    copy
}

/// Reads the number of a host that stands at `start`, with `mark` behind
/// it, and says where the text goes on.
fn read_octet(chars: &Vec<char>, start: usize, mark: char) -> (res: Option<(u8, usize)>)
    requires
        start <= chars.len(),
    ensures
        match octet_before(chars@.skip(start as int), mark) {
            Some((value, rest)) => res matches Some((v, next)) && v == value && next
                <= chars.len() && rest == chars@.skip(next as int),
            None => res.is_none(),
        },
{
    reveal(octet_before);
    let ghost s = chars@.skip(start as int);
    let mut end: usize = start;
    let mut value: u16 = 0;
    while end < chars.len() && end - start < 4 && digit_of(chars[end]).is_some()
        invariant
            start <= end <= chars.len(),
            end - start <= 4,
            s == chars@.skip(start as int),
            all_digits(s.take(end - start)),
            value == decimal_value(s.take(end - start)),
            end - start <= 1 ==> value <= 9,
            end - start <= 2 ==> value <= 99,
            end - start <= 3 ==> value <= 999,
            value <= 9999,
        decreases chars.len() - end,
    {
        let digit = digit_of(chars[end]).unwrap();
        proof {
            let longer = s.take(end - start + 1);
            assert(longer.drop_last() =~= s.take(end - start));
            assert(longer.last() == chars[end as int]);
            assert forall|i: int| 0 <= i < longer.len() implies is_digit(#[trigger] longer[i]) by {
                if i < end - start {
                    assert(longer[i] == s.take(end - start)[i]);
                }
            }
        }
        value = value * 10 + digit as u16;
        end = end + 1;
    }
    let count: usize = end - start;
    proof {
        if count < 4 {
            lemma_digit_run(s, count as int);
        } else {
            lemma_digit_run_at_least(s, 4);
        }
    }
    if count < 1 || count > 3 {
        return None;
    }
    if count > 1 && chars[start] == '0' {
        return None;
    }
    if value > 255 {
        return None;
    }
    if end < chars.len() && chars[end] == mark {
        proof {
            assert(s.skip(count + 1) =~= chars@.skip(end + 1));
        }
        Some((value as u8, end + 1))
    } else {
        None
    }
}

/// Reads the port that stands from `start` to the end of the text.
fn read_port(chars: &Vec<char>, start: usize) -> (res: Option<u16>)
    requires
        start <= chars.len(),
    ensures
        res == port_of(chars@.skip(start as int)),
{
    reveal(port_of);
    let ghost s = chars@.skip(start as int);
    if start == chars.len() {
        return None;
    }
    let mut at: usize = start;
    let mut value: u32 = 0;
    while at < chars.len()
        invariant
            start <= at <= chars.len(),
            s == chars@.skip(start as int),
            all_digits(s.take(at - start)),
            value == decimal_value(s.take(at - start)),
            value <= 65535,
        decreases chars.len() - at,
    {
        let digit = match digit_of(chars[at]) {
            Some(digit) => digit,
            None => {
                proof {
                    reveal(port_of);
                    assert(s[at - start] == chars[at as int]);
                }
                return None;
            },
        };
        proof {
            let longer = s.take(at - start + 1);
            assert(longer.drop_last() =~= s.take(at - start));
            assert(longer.last() == chars[at as int]);
            assert forall|i: int| 0 <= i < longer.len() implies is_digit(#[trigger] longer[i]) by {
                if i < at - start {
                    assert(longer[i] == s.take(at - start)[i]);
                }
            }
        }
        value = value * 10 + digit as u32;
        at = at + 1;
        if value > 65535 {
            proof {
                reveal(port_of);
                if all_digits(s) {
                    lemma_decimal_value_prefix(s, at - start);
                }
            }
            return None;
        }
    }
    proof {
        assert(s.take(at - start) =~= s);
    }
    Some(value as u16)
}

/// A text that begins with `n` digits has a run of at least `n` digits.
proof fn lemma_digit_run_at_least(s: Seq<char>, n: int)
    requires
        0 <= n <= s.len(),
        all_digits(s.take(n)),
    ensures
        digit_run(s) >= n,
    decreases n,
{
    if n > 0 {
        assert(s.take(n)[0] == s[0]);
        let rest = s.drop_first();
        assert forall|i: int| 0 <= i < n - 1 implies is_digit(#[trigger] rest.take(n - 1)[i]) by {
            assert(rest.take(n - 1)[i] == s.take(n)[i + 1]);
        }
        lemma_digit_run_at_least(rest, n - 1);
    }
}

/// The number of a host, written out and followed by a mark that is no
/// digit, is read back as that number, and what follows the mark is left.
pub proof fn lemma_octet_before(value: u8, mark: char, rest: Seq<char>)
    requires
        !is_digit(mark),
    ensures
        octet_before(decimal_text(value as nat) + seq![mark] + rest, mark) == Some((value, rest)),
{
    reveal(octet_before);
    let digits = decimal_text(value as nat);
    let s = digits + seq![mark] + rest;
    let n = digits.len() as int;
    lemma_decimal_text(value as nat);
    assert(s.take(n) =~= digits);
    assert(s[n] == mark);
    lemma_digit_run(s, n);
    assert(s[0] == digits[0]);
    assert(s.skip(n + 1) =~= rest);
}

/// A port that is written out is read back as that port.
pub proof fn lemma_port_round_trip(port: u16)
    ensures
        port_of(decimal_text(port as nat)) == Some(port),
{
    reveal(port_of);
    lemma_decimal_text(port as nat);
}

/// Reading the text that was written for an address gives that address
/// back.
pub proof fn lemma_address_round_trip(address: NetworkAddress)
    ensures
        NetworkAddress::from_text(address.text()) == Some(address),
{
    let a = address.host[0];
    let b = address.host[1];
    let c = address.host[2];
    let d = address.host[3];
    let s4 = decimal_text(address.port as nat);
    let s3 = decimal_text(d as nat) + seq![':'] + s4;
    let s2 = decimal_text(c as nat) + seq!['.'] + s3;
    let s1 = decimal_text(b as nat) + seq!['.'] + s2;
    let s0 = decimal_text(a as nat) + seq!['.'] + s1;
    assert(address.text() == s0) by {
        assert(address.text() =~= s0);
    }
    assert(octet_before(s0, '.') == Some((a, s1))) by {
        lemma_octet_before(a, '.', s1);
    }
    assert(octet_before(s1, '.') == Some((b, s2))) by {
        lemma_octet_before(b, '.', s2);
    }
    assert(octet_before(s2, '.') == Some((c, s3))) by {
        lemma_octet_before(c, '.', s3);
    }
    assert(octet_before(s3, ':') == Some((d, s4))) by {
        lemma_octet_before(d, ':', s4);
    }
    assert(port_of(s4) == Some(address.port)) by {
        lemma_port_round_trip(address.port);
    }
    assert([a, b, c, d] == address.host) by {
        assert([a, b, c, d]@ =~= address.host@);
    }
}

/// A text is read as the number of a host before a mark only where it is
/// the numeral of that number, the mark, and what is left.
pub proof fn lemma_octet_before_only(s: Seq<char>, mark: char, value: u8, rest: Seq<char>)
    requires
        octet_before(s, mark) == Some((value, rest)),
    ensures
        s == decimal_text(value as nat) + seq![mark] + rest,
{
    reveal(octet_before);
    lemma_digit_run_is_digits(s);
    let n = digit_run(s) as int;
    let digits = s.take(n);
    assert(digits[0] == s[0]);
    lemma_canonical_numeral(digits);
    assert(s =~= digits + seq![mark] + s.skip(n + 1));
}

/// A text is read as an address only where it is the text that is written
/// for the address, but for zeros that may stand before the port.
pub proof fn lemma_address_text_only(s: Seq<char>, address: NetworkAddress)
    requires
        NetworkAddress::from_text(s) == Some(address),
    ensures
        ({
            let head = address.host_text();
            let tail = s.skip(head.len() as int);
            &&& s == head + tail
            &&& tail.len() >= 1
            &&& all_digits(tail)
            &&& decimal_value(tail) == address.port
        }),
{
    let (a, s1) = octet_before(s, '.')->0;
    let (b, s2) = octet_before(s1, '.')->0;
    let (c, s3) = octet_before(s2, '.')->0;
    let (d, s4) = octet_before(s3, ':')->0;
    lemma_octet_before_only(s, '.', a, s1);
    lemma_octet_before_only(s1, '.', b, s2);
    lemma_octet_before_only(s2, '.', c, s3);
    lemma_octet_before_only(s3, ':', d, s4);
    assert(port_of(s4) == Some(address.port));
    assert(address.host == [a, b, c, d]);
    let head = address.host_text();
    assert(s == head + s4) by {
        assert(s =~= head + s4);
    }
    assert(s.skip(head.len() as int) =~= s4);
    reveal(port_of);
}

} // verus!
