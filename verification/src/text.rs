//! Decimal text for integers.
//!
//! A sound id ends in the decimal text of its octave, and a record holds its
//! numbers as decimal text. This module says what that text is, writes it and
//! reads it back, and proves that reading undoes writing.

use vstd::prelude::*;
use vstd::string::*;
use vstd::utf8::is_ascii_chars;

verus! {

/// The character that stands for the digit `d`.
pub open spec fn digit_char(d: int) -> char
    recommends
        0 <= d < 10,
{
    (('0' as int) + d) as char
}

/// Whether `c` is one of `'0'` to `'9'`.
pub open spec fn is_digit(c: char) -> bool {
    '0' <= c && c <= '9'
}

/// The digit that `c` stands for.
pub open spec fn digit_value(c: char) -> int
    recommends
        is_digit(c),
{
    (c as int) - ('0' as int)
}

/// The decimal text of a natural number: no sign, no leading zero.
pub open spec fn decimal(n: nat) -> Seq<char>
    decreases n,
{
    if n < 10 {
        seq![digit_char(n as int)]
    } else {
        decimal(n / 10).push(digit_char((n % 10) as int))
    }
}

/// The decimal text of an integer: a minus sign before a negative one.
pub open spec fn signed_decimal(i: int) -> Seq<char> {
    if i < 0 {
        seq!['-'] + decimal((-i) as nat)
    } else {
        decimal(i as nat)
    }
}

/// Whether every character of `s` is a digit.
pub open spec fn all_digits(s: Seq<char>) -> bool {
    forall|i: int| 0 <= i < s.len() ==> is_digit(#[trigger] s[i])
}

/// The number that a run of digits denotes, the first digit weighing most.
pub open spec fn digits_value(s: Seq<char>) -> nat
    decreases s.len(),
{
    if s.len() == 0 {
        0
    } else {
        (digits_value(s.drop_last()) * 10 + digit_value(s.last())) as nat
    }
}

/// Whether `s` begins with a sign.
pub open spec fn has_sign(s: Seq<char>) -> bool {
    s.len() > 0 && (s[0] == '-' || s[0] == '+')
}

/// The digits of `s`: all of it but a leading sign.
pub open spec fn unsigned_part(s: Seq<char>) -> Seq<char> {
    if has_sign(s) {
        s.subrange(1, s.len() as int)
    } else {
        s
    }
}

/// The integer that `s` denotes: an optional `+` or `-`, then one digit or
/// more, and nothing else. Anything else denotes no integer.
pub open spec fn parse_int(s: Seq<char>) -> Option<int> {
    let body = unsigned_part(s);
    if body.len() == 0 || !all_digits(body) {
        None
    } else if s[0] == '-' {
        Some(-(digits_value(body) as int))
    } else {
        Some(digits_value(body) as int)
    }
}

/// The integer that `s` denotes, where it fits in eight bits with a sign.
pub open spec fn parse_i8(s: Seq<char>) -> Option<i8> {
    match parse_int(s) {
        Some(v) => if -128 <= v <= 127 {
            Some(v as i8)
        } else {
            None
        },
        None => None,
    }
}

/// The text of `bytes` read as one character each.
pub open spec fn bytes_as_chars(bytes: Seq<u8>) -> Seq<char> {
    Seq::new(bytes.len(), |i: int| bytes[i] as char)
}

/// The decimal text of a number is made of digits and denotes that number.
pub proof fn lemma_decimal_reads_back(n: nat)
    ensures
        decimal(n).len() >= 1,
        all_digits(decimal(n)),
        digits_value(decimal(n)) == n,
    decreases n,
{
    if n < 10 {
        let s = decimal(n);
        assert(s.drop_last() =~= Seq::<char>::empty());
        assert(digits_value(s.drop_last()) == 0);
        assert(s.last() == digit_char(n as int));
    } else {
        lemma_decimal_reads_back(n / 10);
        let head = decimal(n / 10);
        let s = decimal(n);
        assert(s.drop_last() =~= head);
        assert(s.last() == digit_char((n % 10) as int));
        assert forall|i: int| 0 <= i < s.len() implies is_digit(#[trigger] s[i]) by {
            if i < head.len() {
                assert(s[i] == head[i]);
            }
        }
    }
}

/// Two numbers with the same decimal text are the same number.
pub proof fn lemma_decimal_injective(a: nat, b: nat)
    requires
        decimal(a) == decimal(b),
    ensures
        a == b,
{
    lemma_decimal_reads_back(a);
    lemma_decimal_reads_back(b);
}

/// Reading the decimal text of an integer gives that integer back.
pub proof fn lemma_parse_signed_decimal(i: int)
    ensures
        parse_int(signed_decimal(i)) == Some(i),
{
    let s = signed_decimal(i);
    if i < 0 {
        let body = decimal((-i) as nat);
        lemma_decimal_reads_back((-i) as nat);
        assert(s[0] == '-');
        assert(unsigned_part(s) =~= body);
    } else {
        lemma_decimal_reads_back(i as nat);
        assert(is_digit(s[0]));
        assert(unsigned_part(s) =~= s);
    }
}

/// A run of digits denotes at least what any of its beginnings denotes.
pub proof fn lemma_digits_value_grows(s: Seq<char>, k: int)
    requires
        0 <= k <= s.len(),
        all_digits(s),
    ensures
        digits_value(s.subrange(0, k)) <= digits_value(s),
    decreases s.len(),
{
    if k == s.len() {
        assert(s.subrange(0, k) =~= s);
    } else {
        let front = s.drop_last();
        assert(all_digits(front)) by {
            assert forall|i: int| 0 <= i < front.len() implies is_digit(#[trigger] front[i]) by {
                assert(front[i] == s[i]);
            }
        }
        lemma_digits_value_grows(front, k);
        assert(front.subrange(0, k) =~= s.subrange(0, k));
        assert(is_digit(s.last()));
    }
}

/// The text of one digit.
fn digit_text(d: u8) -> (r: &'static str)
    requires
        d < 10,
    ensures
        r@ == seq![digit_char(d as int)],
{
    proof {
        reveal_strlit("0");
        reveal_strlit("1");
        reveal_strlit("2");
        reveal_strlit("3");
        reveal_strlit("4");
        reveal_strlit("5");
        reveal_strlit("6");
        reveal_strlit("7");
        reveal_strlit("8");
        reveal_strlit("9");
    }
    let r: &'static str = match d {
        0 => "0",
        1 => "1",
        2 => "2",
        3 => "3",
        4 => "4",
        5 => "5",
        6 => "6",
        7 => "7",
        8 => "8",
        _ => "9",
    };
    assert(r@ =~= seq![digit_char(d as int)]);
    r
}

/// Writes a natural number in decimal.
pub fn u128_to_string(n: u128) -> (r: String)
    ensures
        r@ == decimal(n as nat),
    decreases n,
{
    if n < 10 {
        String::from_str(digit_text(n as u8))
    } else {
        let mut s = u128_to_string(n / 10);
        s.append(digit_text((n % 10) as u8));
        assert(s@ =~= decimal(n as nat));
        s
    }
}

/// Writes a natural number in decimal.
pub fn u64_to_string(n: u64) -> (r: String)
    ensures
        r@ == decimal(n as nat),
{
    u128_to_string(n as u128)
}

/// Writes an integer in decimal, with a minus sign where it is negative.
pub fn i64_to_string(i: i64) -> (r: String)
    ensures
        r@ == signed_decimal(i as int),
{
    if i < 0 {
        let magnitude: u64 = ((-(i + 1)) as u64) + 1;
        let digits = u64_to_string(magnitude);
        let mut s = String::from_str("-");
        proof {
            reveal_strlit("-");
        }
        s.append(digits.as_str());
        assert(s@ =~= signed_decimal(i as int));
        s
    } else {
        u64_to_string(i as u64)
    }
}

/// Reads the integer that the bytes from `start` on denote, where it fits in
/// eight bits with a sign.
pub fn parse_i8_from(bytes: &[u8], start: usize) -> (r: Option<i8>)
    requires
        start <= bytes@.len(),
    ensures
        r == parse_i8(bytes_as_chars(bytes@).subrange(start as int, bytes@.len() as int)),
{
    let n: usize = bytes.len();
    let ghost text = bytes_as_chars(bytes@).subrange(start as int, n as int);
    if start == n {
        assert(unsigned_part(text).len() == 0);
        return None;
    }
    let first: char = bytes[start] as char;
    assert(text[0] == first);
    let negative: bool = first == '-';
    let signed: bool = first == '-' || first == '+';
    let from: usize = if signed {
        start + 1
    } else {
        start
    };
    let ghost body = unsigned_part(text);
    assert(body =~= bytes_as_chars(bytes@).subrange(from as int, n as int));
    if from == n {
        return None;
    }
    let mut value: i16 = 0;
    let mut i: usize = from;
    while i < n
        invariant
            from <= i <= n,
            n == bytes@.len(),
            start <= n,
            text == bytes_as_chars(bytes@).subrange(start as int, n as int),
            body == unsigned_part(text),
            body == bytes_as_chars(bytes@).subrange(from as int, n as int),
            all_digits(body.subrange(0, i - from)),
            value == digits_value(body.subrange(0, i - from)),
            0 <= value <= 128,
        decreases n - i,
    {
        let c: char = bytes[i] as char;
        let ghost k = i - from;
        assert(body[k] == c);
        if c < '0' || c > '9' {
            assert(!is_digit(body[k]));
            return None;
        }
        let ghost seen = body.subrange(0, k + 1);
        assert(seen.drop_last() =~= body.subrange(0, k));
        assert(seen.last() == body[k]);
        assert(all_digits(seen)) by {
            assert forall|j: int| 0 <= j < seen.len() implies is_digit(#[trigger] seen[j]) by {
                if j < k {
                    assert(seen[j] == body.subrange(0, k)[j]);
                }
            }
        }
        let digit: u8 = (c as u8) - ('0' as u8);
        let grown: i16 = value * 10 + (digit as i16);
        assert(grown == digits_value(seen));
        if grown > 128 {
            proof {
                if all_digits(body) {
                    lemma_digits_value_grows(body, k + 1);
                }
            }
            return None;
        }
        value = grown;
        i += 1;
    }
    assert(body.subrange(0, i - from) =~= body);
    if negative {
        Some((0 - value) as i8)
    } else if value == 128 {
        None
    } else {
        Some(value as i8)
    }
}

/// The bytes of a text whose characters are all ASCII, one byte for each
/// character; nothing for a text that holds any other character.
pub fn ascii_bytes(s: &str) -> (r: Option<&[u8]>)
    ensures
        r is Some <==> is_ascii_chars(s@),
        r matches Some(bytes) ==> bytes_as_chars(bytes@) == s@,
{
    if s.is_ascii() {
        let bytes = s.as_bytes();
        proof {
            is_ascii_spec_bytes(s);
            assert(bytes_as_chars(bytes@) =~= s@);
        }
        Some(bytes)
    } else {
        None
    }
}

/// Reads a whole text as an integer that fits in eight bits with a sign.
pub fn parse_i8_text(s: &str) -> (r: Option<i8>)
    ensures
        r == parse_i8(s@),
{
    match ascii_bytes(s) {
        Some(bytes) => {
            assert(s@.subrange(0, s@.len() as int) =~= s@);
            parse_i8_from(bytes, 0)
        },
        None => {
            proof {
                if parse_int(s@) is Some {
                    lemma_parsed_text_is_ascii(s@);
                }
            }
            None
        },
    }
}

/// A text that denotes an integer holds ASCII characters only.
pub proof fn lemma_parsed_text_is_ascii(s: Seq<char>)
    requires
        parse_int(s) is Some,
    ensures
        is_ascii_chars(s),
{
    let body = unsigned_part(s);
    assert forall|i: int| 0 <= i < s.len() implies '\0' <= #[trigger] s[i] <= '\u{7f}' by {
        if has_sign(s) {
            if i > 0 {
                assert(is_digit(body[i - 1]));
            }
        } else {
            assert(is_digit(body[i]));
        }
    }
}

} // verus!
