//! Small text utilities: decimal numbers, string building and UTF-8 decoding.
use vstd::prelude::*;

verus! {

/// The value of an ASCII decimal digit.
pub open spec fn digit_value(c: char) -> nat {
    (c as u32 - '0' as u32) as nat
}

pub open spec fn is_digit(c: char) -> bool {
    '0' <= c && c <= '9'
}

/// The ASCII digit of `d`, for `d < 10`.
pub open spec fn digit_char(d: nat) -> char {
    ((d + 48) as u8) as char
}

/// A non-empty run of ASCII decimal digits.
pub open spec fn is_decimal(s: Seq<char>) -> bool {
    s.len() > 0 && forall|i: int| 0 <= i < s.len() ==> is_digit(#[trigger] s[i])
}

/// The number that a run of decimal digits denotes.
pub open spec fn decimal_value(s: Seq<char>) -> nat
    decreases s.len(),
{
    if s.len() == 0 {
        0
    } else {
        decimal_value(s.drop_last()) * 10 + digit_value(s.last())
    }
}

/// The decimal representation of `n`, without leading zeros.
pub open spec fn decimal(n: nat) -> Seq<char>
    decreases n,
{
    if n < 10 {
        seq![digit_char(n)]
    } else {
        decimal(n / 10).push(digit_char(n % 10))
    }
}

/// Relies on `String::push_str`: appends the characters of `t`.
#[verifier::external_body]
pub(crate) fn append(s: &mut String, t: &str)
    ensures
        final(s)@ == old(s)@ + t@,
{
    s.push_str(t)
}

/// Relies on `String::push`: appends one character.
#[verifier::external_body]
fn append_char(s: &mut String, c: char)
    ensures
        final(s)@ == old(s)@.push(c),
{
    s.push(c)
}

/// The text that a byte sequence encodes, if it is valid UTF-8.
pub open spec fn utf8_text(b: Seq<u8>) -> Option<Seq<char>> {
    if vstd::utf8::valid_utf8(b) {
        Some(vstd::utf8::decode_utf8(b))
    } else {
        None
    }
}

/// Relies on `std::str::from_utf8`: it accepts exactly the valid UTF-8 byte
/// sequences and yields the characters they encode.
#[verifier::external_body]
pub(crate) fn decode_utf8(b: &[u8]) -> (r: Option<String>)
    ensures
        r is Some <==> utf8_text(b@) is Some,
        r matches Some(t) ==> utf8_text(b@) == Some(t@),
{
    match std::str::from_utf8(b) {
        Ok(t) => Some(t.to_string()),
        Err(_) => None,
    }
}

/// Appends the decimal representation of `n` to `s`.
pub fn write_decimal(s: &mut String, n: u64)
    ensures
        final(s)@ == old(s)@ + decimal(n as nat),
    decreases n,
{
    if n >= 10 {
        write_decimal(s, n / 10);
    }
    let c = ((n % 10) as u8 + 48) as char;
    append_char(s, c);
    assert(c == digit_char((n % 10) as nat));
    assert(old(s)@ + decimal(n as nat) =~= final(s)@);
}

proof fn lemma_prefix_value_bounded(s: Seq<char>, i: int)
    requires
        0 <= i <= s.len(),
        forall|j: int| 0 <= j < s.len() ==> is_digit(#[trigger] s[j]),
    ensures
        decimal_value(s.take(i)) <= decimal_value(s),
    decreases s.len(),
{
    if i < s.len() {
        lemma_prefix_value_bounded(s.drop_last(), i);
        assert(s.drop_last().take(i) =~= s.take(i));
    } else {
        assert(s.take(i) =~= s);
    }
}

/// The digits of an unsigned number: the text after an optional leading `+`.
pub open spec fn digits_of(s: Seq<char>) -> Seq<char> {
    if s.len() > 0 && s[0] == '+' {
        s.drop_first()
    } else {
        s
    }
}

/// Text that denotes an unsigned number: an optional `+`, then one or more
/// ASCII digits.
pub open spec fn is_unsigned(s: Seq<char>) -> bool {
    is_decimal(digits_of(s))
}

/// The number that unsigned-number text denotes.
pub open spec fn unsigned_value(s: Seq<char>) -> nat {
    decimal_value(digits_of(s))
}

/// Parses an unsigned number, an optional `+` followed by ASCII digits, as a
/// `u64`; `None` when the text is not of that form or its value does not fit.
pub fn parse_u64(t: &str) -> (r: Option<u64>)
    ensures
        r is Some <==> is_unsigned(t@) && unsigned_value(t@) <= u64::MAX,
        r matches Some(v) ==> v as nat == unsigned_value(t@),
{
    let n = t.unicode_len();
    if n > 0 && t.get_char(0) == '+' {
        let rest = t.substring_char(1, n);
        assert(rest@ =~= t@.drop_first());
        parse_digits(rest)
    } else {
        parse_digits(t)
    }
}

fn parse_digits(t: &str) -> (r: Option<u64>)
    ensures
        r is Some <==> is_decimal(t@) && decimal_value(t@) <= u64::MAX,
        r matches Some(v) ==> v as nat == decimal_value(t@),
{
    let n = t.unicode_len();
    if n == 0 {
        return None;
    }
    let mut acc: u64 = 0;
    let mut i: usize = 0;
    while i < n
        invariant
            n == t@.len(),
            i <= n,
            forall|j: int| 0 <= j < i ==> is_digit(#[trigger] t@[j]),
            acc as nat == decimal_value(t@.take(i as int)),
        decreases n - i,
    {
        let c = t.get_char(i);
        if !('0' <= c && c <= '9') {
            return None;
        }
        let d: u64 = (c as u32 - 48) as u64;
        assert(t@.take(i + 1).drop_last() =~= t@.take(i as int));
        assert(digit_value(c) == d as nat);
        if acc > (u64::MAX - d) / 10 {
            proof {
                assert(acc * 10 + d > u64::MAX) by (nonlinear_arith)
                    requires
                        acc > (u64::MAX - d) / 10,
                        d <= 9,
                ;
                if is_decimal(t@) {
                    lemma_prefix_value_bounded(t@, i + 1);
                }
            }
            return None;
        }
        acc = acc * 10 + d;
        i = i + 1;
    }
    assert(t@.take(n as int) =~= t@);
    Some(acc)
}

} // verus!
