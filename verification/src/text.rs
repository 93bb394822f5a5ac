//! Characters, decimal numerals and the string operations that the other
//! modules build on.
use vstd::prelude::*;

verus! {

/// `String::push` appends one character.
pub assume_specification[ std::string::String::push ](s: &mut std::string::String, c: char)
    ensures
        final(s)@ == old(s)@.push(c),
;

/// Equality of two string slices is equality of their characters.
pub assume_specification[ <str as PartialEq>::eq ](a: &str, b: &str) -> (res: bool)
    ensures
        res == (a@ == b@),
;

/// Whether `c` is one of the ten ASCII digits.
pub open spec fn is_digit(c: char) -> bool {
    '0' <= c && c <= '9'
}

/// Whether every character of `s` is an ASCII digit.
pub open spec fn all_digits(s: Seq<char>) -> bool {
    forall|i: int| 0 <= i < s.len() ==> is_digit(#[trigger] s[i])
}

/// The number that the digit `c` stands for.
pub open spec fn digit_value(c: char) -> nat {
    (c as u32 - '0' as u32) as nat
}

/// The digit that stands for `d`, for `d` below ten.
pub open spec fn digit_char(d: nat) -> char {
    ((48 + d) as u8) as char
}

/// The number that the decimal numeral `s` stands for; leading zeros count
/// for nothing, and the empty numeral stands for zero.
pub open spec fn decimal_value(s: Seq<char>) -> nat
    decreases s.len(),
{
    if s.len() == 0 {
        0
    } else {
        decimal_value(s.drop_last()) * 10 + digit_value(s.last())
    }
}

/// The decimal numeral of `n`, without leading zeros.
pub open spec fn decimal_text(n: nat) -> Seq<char>
    decreases n,
{
    if n < 10 {
        seq![digit_char(n)]
    } else {
        decimal_text(n / 10).push(digit_char(n % 10))
    }
}

/// The number of digits that `s` begins with.
pub open spec fn digit_run(s: Seq<char>) -> nat
    decreases s.len(),
{
    if s.len() > 0 && is_digit(s[0]) {
        1 + digit_run(s.drop_first())
    } else {
        0
    }
}

/// A digit character and its number determine each other.
pub proof fn lemma_digit_char(d: nat)
    requires
        d < 10,
    ensures
        is_digit(digit_char(d)),
        digit_value(digit_char(d)) == d,
{
}

/// The numeral of `n` consists of digits, has no leading zero unless it is
/// `0` itself, and stands for `n`.
pub proof fn lemma_decimal_text(n: nat)
    ensures
        decimal_text(n).len() >= 1,
        all_digits(decimal_text(n)),
        decimal_text(n).len() == 1 || decimal_text(n)[0] != '0',
        decimal_value(decimal_text(n)) == n,
        n < 10 <==> decimal_text(n).len() == 1,
        n < 100 <==> decimal_text(n).len() <= 2,
        n < 1000 <==> decimal_text(n).len() <= 3,
    decreases n,
{
    lemma_digit_char(n % 10);
    if n < 10 {
        let t = decimal_text(n);
        assert(t.drop_last() =~= Seq::<char>::empty());
        assert(decimal_value(t.drop_last()) == 0);
    } else {
        lemma_decimal_text(n / 10);
        let head = decimal_text(n / 10);
        let t = decimal_text(n);
        assert(t.drop_last() =~= head);
        assert(t.last() == digit_char(n % 10));
        assert(t[0] == head[0]);
        if head.len() == 1 {
            assert(decimal_value(head.drop_last()) == 0) by {
                assert(head.drop_last() =~= Seq::<char>::empty());
            }
            assert(head[0] == head.last());
            assert(digit_value(head[0]) == n / 10);
        }
    }
}

/// A numeral that is a prefix of another stands for no more than it.
pub proof fn lemma_decimal_value_prefix(s: Seq<char>, k: int)
    requires
        0 <= k <= s.len(),
        all_digits(s),
    ensures
        decimal_value(s.take(k)) <= decimal_value(s),
    decreases s.len() - k,
{
    if k < s.len() {
        lemma_decimal_value_prefix(s, k + 1);
        assert(s.take(k + 1).drop_last() =~= s.take(k));
    } else {
        assert(s.take(k) =~= s);
    }
}

/// A run of digits ends at the first character that is no digit.
pub proof fn lemma_digit_run(s: Seq<char>, n: int)
    requires
        0 <= n <= s.len(),
        all_digits(s.take(n)),
        n == s.len() || !is_digit(s[n]),
    ensures
        digit_run(s) == n,
    decreases s.len(),
{
    if n > 0 {
        assert(s.take(n)[0] == s[0]);
        let rest = s.drop_first();
        assert(rest.take(n - 1) =~= s.take(n).drop_first());
        assert forall|i: int| 0 <= i < n - 1 implies is_digit(#[trigger] rest.take(n - 1)[i]) by {
            assert(rest.take(n - 1)[i] == s.take(n)[i + 1]);
        }
        lemma_digit_run(rest, n - 1);
    }
}

/// A run of digits consists of digits and does not reach beyond the text.
pub proof fn lemma_digit_run_is_digits(s: Seq<char>)
    ensures
        digit_run(s) <= s.len(),
        all_digits(s.take(digit_run(s) as int)),
        digit_run(s) == s.len() || !is_digit(s[digit_run(s) as int]),
    decreases s.len(),
{
    if s.len() > 0 && is_digit(s[0]) {
        let rest = s.drop_first();
        lemma_digit_run_is_digits(rest);
        let n = digit_run(s) as int;
        assert forall|i: int| 0 <= i < n implies is_digit(#[trigger] s.take(n)[i]) by {
            if i > 0 {
                assert(s.take(n)[i] == rest.take(n - 1)[i - 1]);
            }
        }
        if n < s.len() {
            assert(s[n] == rest[n - 1]);
        }
    }
}

/// A numeral that does not begin with a zero stands for a number that is
/// not zero.
pub proof fn lemma_decimal_value_positive(s: Seq<char>)
    requires
        s.len() >= 1,
        all_digits(s),
        s[0] != '0',
    ensures
        decimal_value(s) >= 1,
    decreases s.len(),
{
    if s.len() == 1 {
        assert(s.drop_last() =~= Seq::<char>::empty());
        assert(s.last() == s[0]);
    } else {
        let head = s.drop_last();
        assert(head[0] == s[0]);
        lemma_decimal_value_positive(head);
    }
}

/// A numeral without leading zeros is the numeral of the number that it
/// stands for: no number has two such numerals.
pub proof fn lemma_canonical_numeral(s: Seq<char>)
    requires
        s.len() >= 1,
        all_digits(s),
        s.len() == 1 || s[0] != '0',
    ensures
        decimal_text(decimal_value(s)) == s,
    decreases s.len(),
{
    let head = s.drop_last();
    let c = s.last();
    assert(is_digit(c));
    assert(digit_char(digit_value(c)) == c);
    if s.len() == 1 {
        assert(head =~= Seq::<char>::empty());
        assert(decimal_value(head) == 0);
        assert(decimal_text(decimal_value(s)) =~= s);
    } else {
        assert(head[0] == s[0]);
        lemma_decimal_value_positive(head);
        lemma_canonical_numeral(head);
        let n = decimal_value(s);
        assert(n == decimal_value(head) * 10 + digit_value(c));
        assert(n / 10 == decimal_value(head) && n % 10 == digit_value(c));
        assert(decimal_text(n) =~= s);
    }
}

/// The characters of a string slice.
pub fn chars_of(s: &str) -> (v: Vec<char>)
    ensures
        v@ == s@,
{
    let mut v: Vec<char> = Vec::new();
    for c in it: s.chars()
        invariant
            it.seq() == s@,
            v@ == s@.take(it.index() as int),
    {
        v.push(c);
    }
    v
}

/// The number of the digit `c`, or `None` where `c` is no digit.
pub fn digit_of(c: char) -> (res: Option<u8>)
    ensures
        res.is_some() == is_digit(c),
        res matches Some(d) ==> d == digit_value(c) && d < 10,
{
    if c >= '0' && c <= '9' {
        Some((c as u32 - '0' as u32) as u8)
    } else {
        None
    }
}

/// Appends the decimal numeral of `n` to `out`.
pub fn push_decimal(out: &mut String, n: u64)
    ensures
        final(out)@ == old(out)@ + decimal_text(n as nat),
    decreases n,
{
    if n >= 10 {
        push_decimal(out, n / 10);
    }
    let d: u8 = (n % 10) as u8;
    out.push((48u8 + d) as char);
}

/// The number that `s` writes, where `s` is a decimal numeral of a number
/// that fits in 64 bits: one or more digits, and nothing else.
pub open spec fn numeral_of(s: Seq<char>) -> Option<u64> {
    if s.len() >= 1 && all_digits(s) && decimal_value(s) <= u64::MAX {
        Some(decimal_value(s) as u64)
    } else {
        None
    }
}

/// Reads the decimal numeral of a number that fits in 64 bits.
pub fn read_numeral(text: &str) -> (res: Option<u64>)
    ensures
        res == numeral_of(text@),
{
    let chars = chars_of(text);
    if chars.len() == 0 {
        return None;
    }
    let ghost s = chars@;
    let mut at: usize = 0;
    let mut value: u64 = 0;
    while at < chars.len()
        invariant
            at <= chars.len(),
            s == chars@,
            s == text@,
            all_digits(s.take(at as int)),
            value == decimal_value(s.take(at as int)),
        decreases chars.len() - at,
    {
        let digit = match digit_of(chars[at]) {
            Some(digit) => digit,
            None => {
                return None;
            },
        };
        proof {
            let longer = s.take(at + 1);
            assert(longer.drop_last() =~= s.take(at as int));
            assert(longer.last() == chars[at as int]);
            assert forall|i: int| 0 <= i < longer.len() implies is_digit(#[trigger] longer[i]) by {
                if i < at {
                    assert(longer[i] == s.take(at as int)[i]);
                }
            }
            if all_digits(s) {
                lemma_decimal_value_prefix(s, at + 1);
            }
        }
        if value > (u64::MAX - digit as u64) / 10 {
            return None;
        }
        value = value * 10 + digit as u64;
        at = at + 1;
    }
    proof {
        assert(s.take(at as int) =~= s);
    }
    Some(value)
}

/// A number that is written out is read back as that number.
pub proof fn lemma_numeral_round_trip(n: u64)
    ensures
        numeral_of(decimal_text(n as nat)) == Some(n),
{
    lemma_decimal_text(n as nat);
}

} // verus!
