//! Text: decimal numbers read and written, strings compared, and
//! substrings replaced.

use vstd::prelude::*;
use vstd::string::*;
use vstd::utf8::*;

verus! {

/// Whether `c` is one of the ten ASCII digits.
pub open spec fn is_digit(c: char) -> bool {
    '0' <= c && c <= '9'
}

/// The number that the ASCII digit `c` stands for.
pub open spec fn digit_value(c: char) -> nat
    recommends
        is_digit(c),
{
    (c as nat - '0' as nat) as nat
}

/// Whether every character of `s` is an ASCII digit.
pub open spec fn all_digits(s: Seq<char>) -> bool {
    forall|i: int| 0 <= i < s.len() ==> is_digit(#[trigger] s[i])
}

/// The number that the digit string `s` denotes in base ten; leading zeros
/// are allowed and the empty string denotes zero.
pub open spec fn decimal_value(s: Seq<char>) -> nat
    decreases s.len(),
{
    if s.len() == 0 {
        0
    } else {
        decimal_value(s.drop_last()) * 10 + digit_value(s.last())
    }
}

/// What a run of one or more ASCII digits denotes; nothing for any other
/// string, the empty one included.
pub open spec fn unsigned_decimal(s: Seq<char>) -> Option<nat> {
    if s.len() > 0 && all_digits(s) {
        Some(decimal_value(s))
    } else {
        None
    }
}

/// What a string denotes as a signed decimal: an optional `+` or `-`, then
/// one or more ASCII digits. Nothing for any other string.
pub open spec fn signed_decimal(s: Seq<char>) -> Option<int> {
    if s.len() > 0 && s[0] == '-' {
        match unsigned_decimal(s.drop_first()) {
            Some(v) => Some(-(v as int)),
            None => None,
        }
    } else if s.len() > 0 && s[0] == '+' {
        match unsigned_decimal(s.drop_first()) {
            Some(v) => Some(v as int),
            None => None,
        }
    } else {
        match unsigned_decimal(s) {
            Some(v) => Some(v as int),
            None => None,
        }
    }
}

/// What a string denotes as a 64-bit signed integer, where it denotes one.
pub open spec fn decimal_i64(s: Seq<char>) -> Option<i64> {
    match signed_decimal(s) {
        Some(v) => if i64::MIN <= v <= i64::MAX {
            Some(v as i64)
        } else {
            None
        },
        None => None,
    }
}

/// What a string denotes as a 16-bit unsigned integer: an optional `+`,
/// then one or more ASCII digits, worth no more than 65535. Nothing for any
/// other string.
pub open spec fn decimal_u16(s: Seq<char>) -> Option<u16> {
    let digits = if s.len() > 0 && s[0] == '+' {
        s.drop_first()
    } else {
        s
    };
    match unsigned_decimal(digits) {
        Some(v) => if v <= u16::MAX {
            Some(v as u16)
        } else {
            None
        },
        None => None,
    }
}

/// The ASCII digit that stands for `d`.
pub open spec fn digit_char(d: nat) -> char
    recommends
        d < 10,
{
    if d == 0 {
        '0'
    } else if d == 1 {
        '1'
    } else if d == 2 {
        '2'
    } else if d == 3 {
        '3'
    } else if d == 4 {
        '4'
    } else if d == 5 {
        '5'
    } else if d == 6 {
        '6'
    } else if d == 7 {
        '7'
    } else if d == 8 {
        '8'
    } else {
        '9'
    }
}

/// The shortest decimal form of `n`: no leading zero, and `0` for zero.
pub open spec fn decimal_text(n: nat) -> Seq<char>
    decreases n,
{
    if n < 10 {
        seq![digit_char(n)]
    } else {
        decimal_text(n / 10).push(digit_char(n % 10))
    }
}

/// The decimal form of an integer: a minus sign before the digits of a
/// negative one.
pub open spec fn signed_text(n: int) -> Seq<char> {
    if n < 0 {
        seq!['-'] + decimal_text((-n) as nat)
    } else {
        decimal_text(n as nat)
    }
}

/// One more digit at the end makes a digit string worth ten times what it
/// was, and the digit.
pub proof fn lemma_decimal_value_step(s: Seq<char>, i: int)
    requires
        0 <= i < s.len(),
    ensures
        decimal_value(s.take(i + 1)) == decimal_value(s.take(i)) * 10 + digit_value(s[i]),
{
    assert(s.take(i + 1).drop_last() =~= s.take(i));
}

/// Reading the decimal form of a number gives the number back.
pub proof fn lemma_decimal_text_value(n: nat)
    ensures
        decimal_text(n).len() > 0,
        all_digits(decimal_text(n)),
        decimal_value(decimal_text(n)) == n,
        unsigned_decimal(decimal_text(n)) == Some(n),
    decreases n,
{
    if n < 10 {
        let t = decimal_text(n);
        assert(t.drop_last() =~= Seq::<char>::empty());
        assert(decimal_value(t.drop_last()) == 0);
    } else {
        lemma_decimal_text_value(n / 10);
        let t = decimal_text(n);
        assert(t.drop_last() =~= decimal_text(n / 10));
        assert(digit_value(digit_char(n % 10)) == n % 10);
    }
}

/// Whether two string slices hold the same characters.
pub fn same_text(a: &str, b: &str) -> (r: bool)
    ensures
        r == (a@ == b@),
{
    let x = a.as_bytes();
    let y = b.as_bytes();
    let mut equal = x.len() == y.len();
    let mut i: usize = 0;
    while equal && i < x.len()
        invariant
            i <= x.len(),
            equal ==> x.len() == y.len(),
            equal ==> forall|k: int| 0 <= k < i ==> x@[k] == y@[k],
            !equal ==> x@ != y@,
        decreases x.len() - i,
    {
        if x[i] != y[i] {
            equal = false;
        }
        i += 1;
    }
    proof {
        if equal {
            assert(x@ =~= y@);
            encode_utf8_decode_utf8(a@);
            encode_utf8_decode_utf8(b@);
        }
    }
    equal
}

/// Reads a run of ASCII digits as a number no greater than `limit`.
pub fn parse_digits(s: &str, limit: u64) -> (r: Option<u64>)
    ensures
        r == match unsigned_decimal(s@) {
            Some(v) => if v <= limit {
                Some(v as u64)
            } else {
                None
            },
            None => None,
        },
{
    if !s.is_ascii() {
        return None;
    }
    let bytes = s.as_bytes();
    proof {
        is_ascii_spec_bytes(s);
    }
    let n = bytes.len();
    if n == 0 {
        return None;
    }
    let mut acc: u64 = 0;
    let mut over = false;
    let mut i: usize = 0;
    while i < n
        invariant
            i <= n,
            n == s@.len(),
            is_ascii_chars(s@),
            bytes@ == Seq::new(s@.len(), |k: int| s@[k] as u8),
            all_digits(s@.take(i as int)),
            !over ==> acc == decimal_value(s@.take(i as int)),
            !over ==> acc <= limit,
            over ==> decimal_value(s@.take(i as int)) > limit,
        decreases n - i,
    {
        let b = bytes[i];
        assert(b == s@[i as int] as u8);
        if b < 48 || b > 57 {
            assert(!is_digit(s@[i as int]));
            return None;
        }
        let d: u64 = (b - 48) as u64;
        proof {
            lemma_decimal_value_step(s@, i as int);
            assert(is_digit(s@[i as int]));
            assert(digit_value(s@[i as int]) == d);
        }
        if !over {
            let next: u128 = acc as u128 * 10 + d as u128;
            if next > limit as u128 {
                over = true;
            } else {
                acc = next as u64;
            }
        }
        i += 1;
    }
    assert(s@.take(n as int) =~= s@);
    if over {
        None
    } else {
        Some(acc)
    }
}

/// Reads a signed decimal that fits in 64 bits.
pub fn parse_i64(s: &str) -> (r: Option<i64>)
    ensures
        r == decimal_i64(s@),
{
    if !s.is_ascii() {
        assert(signed_decimal(s@) is None) by {
            if signed_decimal(s@) is Some {
                assert forall|i: int| 0 <= i < s@.len() implies '\0' <= #[trigger] s@[i]
                    <= '\u{7f}' by {
                    if s@[0] == '-' || s@[0] == '+' {
                        if i > 0 {
                            assert(is_digit(s@.drop_first()[i - 1]));
                        }
                    } else {
                        assert(is_digit(s@[i]));
                    }
                }
            }
        }
        return None;
    }
    let n = s.unicode_len();
    if n == 0 {
        return None;
    }
    let first = s.get_ascii(0);
    if first == 45 {
        let rest = s.substring_ascii(1, n);
        assert(rest@ =~= s@.drop_first());
        match parse_digits(rest, 9_223_372_036_854_775_808) {
            Some(v) => if v == 9_223_372_036_854_775_808 {
                Some(i64::MIN)
            } else {
                Some(-(v as i64))
            },
            None => None,
        }
    } else if first == 43 {
        let rest = s.substring_ascii(1, n);
        assert(rest@ =~= s@.drop_first());
        match parse_digits(rest, 9_223_372_036_854_775_807) {
            Some(v) => Some(v as i64),
            None => None,
        }
    } else {
        match parse_digits(s, 9_223_372_036_854_775_807) {
            Some(v) => Some(v as i64),
            None => None,
        }
    }
}

/// Reads an unsigned decimal that fits in 16 bits.
pub fn parse_u16(s: &str) -> (r: Option<u16>)
    ensures
        r == decimal_u16(s@),
{
    if !s.is_ascii() {
        assert(decimal_u16(s@) is None) by {
            if decimal_u16(s@) is Some {
                assert forall|i: int| 0 <= i < s@.len() implies '\0' <= #[trigger] s@[i]
                    <= '\u{7f}' by {
                    if s@[0] == '+' {
                        if i > 0 {
                            assert(is_digit(s@.drop_first()[i - 1]));
                        }
                    } else {
                        assert(is_digit(s@[i]));
                    }
                }
            }
        }
        return None;
    }
    let n = s.unicode_len();
    let digits = if n > 0 && s.get_ascii(0) == 43 {
        let rest = s.substring_ascii(1, n);
        assert(rest@ =~= s@.drop_first());
        rest
    } else {
        s
    };
    match parse_digits(digits, 65_535) {
        Some(v) => Some(v as u16),
        None => None,
    }
}

/// The one-character string of a digit.
fn digit_str(d: u8) -> (r: &'static str)
    requires
        d < 10,
    ensures
        r@ == seq![digit_char(d as nat)],
{
    proof {
        reveal_strlit("0");
        reveal_strlit("1");
        reveal_strlit("2");
        reveal_strlit("3");
        reveal_strlit("4");
        reveal_strlit("5");
        reveal_strlit("6");
        reveal_strlit("7");
        reveal_strlit("8");
        reveal_strlit("9");
    }
    let r = if d == 0 {
        "0"
    } else if d == 1 {
        "1"
    } else if d == 2 {
        "2"
    } else if d == 3 {
        "3"
    } else if d == 4 {
        "4"
    } else if d == 5 {
        "5"
    } else if d == 6 {
        "6"
    } else if d == 7 {
        "7"
    } else if d == 8 {
        "8"
    } else {
        "9"
    };
    assert(r@ =~= seq![digit_char(d as nat)]);
    r
}

/// Writes `n` in its shortest decimal form.
pub fn render_decimal(n: u64) -> (r: String)
    ensures
        r@ == decimal_text(n as nat),
    decreases n,
{
    if n < 10 {
        String::from_str(digit_str(n as u8))
    } else {
        let mut r = render_decimal(n / 10);
        r.append(digit_str((n % 10) as u8));
        assert(r@ =~= decimal_text(n as nat));
        r
    }
}

/// Writes an integer in decimal, with a minus sign where it is negative.
pub fn render_signed(n: i64) -> (r: String)
    ensures
        r@ == signed_text(n as int),
{
    if n < 0 {
        let magnitude: u64 = if n == i64::MIN {
            9_223_372_036_854_775_808
        } else {
            (-n) as u64
        };
        let digits = render_decimal(magnitude);
        let mut r = String::from_str("-");
        proof {
            reveal_strlit("-");
        }
        r.append(digits.as_str());
        assert(r@ =~= signed_text(n as int));
        r
    } else {
        render_decimal(n as u64)
    }
}

/// `text` with `to` before its first character, after its last and
/// between every two.
pub open spec fn interleaved(text: Seq<char>, to: Seq<char>) -> Seq<char>
    decreases text.len(),
{
    if text.len() == 0 {
        to
    } else {
        to + seq![text[0]] + interleaved(text.drop_first(), to)
    }
}

/// `text` with every occurrence of `from` replaced by `to`, found from left
/// to right without overlap. The empty string occurs before and after every
/// character.
pub open spec fn replaced(text: Seq<char>, from: Seq<char>, to: Seq<char>) -> Seq<char>
    decreases text.len(),
{
    if from.len() == 0 {
        interleaved(text, to)
    } else if text.len() < from.len() {
        text
    } else if text.take(from.len() as int) == from {
        to + replaced(text.skip(from.len() as int), from, to)
    } else {
        seq![text[0]] + replaced(text.drop_first(), from, to)
    }
}

/// Puts `to` around every character of `text`.
fn interleave(text: &str, to: &str) -> (r: String)
    ensures
        r@ == interleaved(text@, to@),
{
    let n = text.unicode_len();
    let mut r = String::new();
    let mut i: usize = 0;
    assert(text@.skip(0) =~= text@);
    while i < n
        invariant
            i <= n,
            n == text@.len(),
            r@ + interleaved(text@.skip(i as int), to@) == interleaved(text@, to@),
        decreases n - i,
    {
        let ghost rest = text@.skip(i as int);
        let ghost done = r@;
        r.append(to);
        r.append(text.substring_char(i, i + 1));
        assert(text@.subrange(i as int, i + 1) =~= seq![rest[0]]);
        assert(rest.drop_first() =~= text@.skip(i + 1));
        assert(r@ + interleaved(text@.skip(i + 1), to@) =~= done + interleaved(rest, to@));
        i += 1;
    }
    let ghost done = r@;
    r.append(to);
    assert(text@.skip(n as int) =~= Seq::<char>::empty());
    assert(r@ =~= done + interleaved(text@.skip(n as int), to@));
    r
}

/// Replaces every occurrence of `from` in `text` by `to`.
pub fn replace_all(text: &str, from: &str, to: &str) -> (r: String)
    ensures
        r@ == replaced(text@, from@, to@),
{
    let n = text.unicode_len();
    let m = from.unicode_len();
    if m == 0 {
        return interleave(text, to);
    }
    let mut r = String::new();
    let mut i: usize = 0;
    assert(text@.skip(0) =~= text@);
    while i < n
        invariant
            i <= n,
            n == text@.len(),
            m == from@.len(),
            m > 0,
            r@ + replaced(text@.skip(i as int), from@, to@) == replaced(text@, from@, to@),
        decreases n - i,
    {
        let ghost rest = text@.skip(i as int);
        let ghost done = r@;
        if m > n - i {
            r.append(text.substring_char(i, n));
            assert(text@.subrange(i as int, n as int) =~= rest);
            assert(text@.skip(n as int) =~= Seq::<char>::empty());
            assert(r@ + replaced(text@.skip(n as int), from@, to@) =~= done + replaced(
                rest,
                from@,
                to@,
            ));
            i = n;
        } else {
            assert(rest.take(m as int) =~= text@.subrange(i as int, i + m));
            if same_text(text.substring_char(i, i + m), from) {
                r.append(to);
                assert(rest.skip(m as int) =~= text@.skip(i + m));
                assert(r@ + replaced(text@.skip(i + m), from@, to@) =~= done + replaced(
                    rest,
                    from@,
                    to@,
                ));
                i += m;
            } else {
                r.append(text.substring_char(i, i + 1));
                assert(text@.subrange(i as int, i + 1) =~= seq![rest[0]]);
                assert(rest.drop_first() =~= text@.skip(i + 1));
                assert(r@ + replaced(text@.skip(i + 1), from@, to@) =~= done + replaced(
                    rest,
                    from@,
                    to@,
                ));
                i += 1;
            }
        }
    }
    assert(text@.skip(n as int) =~= Seq::<char>::empty());
    assert(r@ + Seq::<char>::empty() =~= r@);
    r
}

} // verus!
