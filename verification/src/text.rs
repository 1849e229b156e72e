//! Text helpers shared by the codec: comparison of string slices and the
//! decimal and boolean literals that the wire format uses.

use vstd::prelude::*;
use vstd::string::*;
use vstd::utf8::*;

verus! {

/// `String::push` appends one character to the end of the string.
pub assume_specification[ String::push ](s: &mut String, c: char)
    ensures
        final(s)@ == old(s)@.push(c),
;

/// Whether two string slices hold the same characters.
pub fn str_equal(a: &str, b: &str) -> (r: bool)
    ensures
        r == (a@ == b@),
{
    let x = a.as_bytes();
    let y = b.as_bytes();
    proof {
        encode_utf8_decode_utf8(a@);
        encode_utf8_decode_utf8(b@);
    }
    if x.len() != y.len() {
        return false;
    }
    let mut i: usize = 0;
    while i < x.len()
        invariant
            i <= x.len(),
            x.len() == y.len(),
            x@ == encode_utf8(a@),
            y@ == encode_utf8(b@),
            forall|k: int| 0 <= k < i ==> x@[k] == y@[k],
            decode_utf8(encode_utf8(a@)) == a@,
            decode_utf8(encode_utf8(b@)) == b@,
        decreases x.len() - i,
    {
        if x[i] != y[i] {
            return false;
        }
        i = i + 1;
    }
    assert(x@ =~= y@);
    true
}

/// The decimal digit that stands for `d`, for `d` below ten.
pub open spec fn digit_char(d: nat) -> char {
    if d == 0 {
        '0'
    } else if d == 1 {
        '1'
    } else if d == 2 {
        '2'
    } else if d == 3 {
        '3'
    } else if d == 4 {
        '4'
    } else if d == 5 {
        '5'
    } else if d == 6 {
        '6'
    } else if d == 7 {
        '7'
    } else if d == 8 {
        '8'
    } else {
        '9'
    }
}

/// The value of a decimal digit, `None` for any other character.
pub open spec fn digit_value(c: char) -> Option<nat> {
    if c == '0' {
        Some(0)
    } else if c == '1' {
        Some(1)
    } else if c == '2' {
        Some(2)
    } else if c == '3' {
        Some(3)
    } else if c == '4' {
        Some(4)
    } else if c == '5' {
        Some(5)
    } else if c == '6' {
        Some(6)
    } else if c == '7' {
        Some(7)
    } else if c == '8' {
        Some(8)
    } else if c == '9' {
        Some(9)
    } else {
        None
    }
}

/// The decimal numeral of `n`, without sign or leading zeros.
pub open spec fn decimal_text(n: nat) -> Seq<char>
    decreases n,
{
    if n < 10 {
        seq![digit_char(n)]
    } else {
        decimal_text(n / 10).push(digit_char(n % 10))
    }
}

/// The number that a non-empty run of decimal digits denotes, `None` where
/// the run is empty or holds anything but digits.
pub open spec fn digits_value(s: Seq<char>) -> Option<nat>
    decreases s.len(),
{
    if s.len() == 0 {
        None
    } else {
        match digit_value(s.last()) {
            None => None,
            Some(d) => if s.len() == 1 {
                Some(d)
            } else {
                match digits_value(s.drop_last()) {
                    None => None,
                    Some(v) => Some(v * 10 + d),
                }
            },
        }
    }
}

/// What a decimal literal denotes as a `u32`: an optional `+`, then one or
/// more digits whose value fits. Anything else denotes nothing.
pub open spec fn parse_u32_spec(s: Seq<char>) -> Option<u32> {
    let digits = if s.len() > 0 && s[0] == '+' {
        s.drop_first()
    } else {
        s
    };
    match digits_value(digits) {
        Some(v) => if v <= u32::MAX {
            Some(v as u32)
        } else {
            None
        },
        None => None,
    }
}

/// A numeral read back gives the number it was written from. No numeral
/// is empty, and none begins with a sign.
pub proof fn lemma_decimal_round_trip(n: nat)
    ensures
        digits_value(decimal_text(n)) == Some(n),
        decimal_text(n).len() > 0,
        decimal_text(n)[0] != '+',
    decreases n,
{
    if n >= 10 {
        lemma_decimal_round_trip(n / 10);
        assert(decimal_text(n).drop_last() =~= decimal_text(n / 10));
    }
}

/// Writing a `u32` and reading the numeral back gives the same `u32`.
pub proof fn lemma_u32_text_round_trip(n: u32)
    ensures
        parse_u32_spec(decimal_text(n as nat)) == Some(n),
{
    lemma_decimal_round_trip(n as nat);
}

/// A run of digits that denotes a number has only prefixes that denote
/// numbers, none of them larger.
pub proof fn lemma_digits_prefix(s: Seq<char>, k: int)
    requires
        digits_value(s) is Some,
        1 <= k <= s.len(),
    ensures
        digits_value(s.take(k)) is Some,
        digits_value(s.take(k))->0 <= digits_value(s)->0,
    decreases s.len(),
{
    if k == s.len() {
        assert(s.take(k) =~= s);
    } else {
        lemma_digits_prefix(s.drop_last(), k);
        assert(s.drop_last().take(k) =~= s.take(k));
    }
}

/// The digit character of `d`.
fn digit_of(d: u32) -> (c: char)
    requires
        d < 10,
    ensures
        c == digit_char(d as nat),
{
    if d == 0 {
        '0'
    } else if d == 1 {
        '1'
    } else if d == 2 {
        '2'
    } else if d == 3 {
        '3'
    } else if d == 4 {
        '4'
    } else if d == 5 {
        '5'
    } else if d == 6 {
        '6'
    } else if d == 7 {
        '7'
    } else if d == 8 {
        '8'
    } else {
        '9'
    }
}

/// The value of the digit `c`, if it is one.
fn value_of_digit(c: char) -> (r: Option<u64>)
    ensures
        r is Some <==> digit_value(c) is Some,
        r is Some ==> r->0 == digit_value(c)->0,
{
    if c == '0' {
        Some(0)
    } else if c == '1' {
        Some(1)
    } else if c == '2' {
        Some(2)
    } else if c == '3' {
        Some(3)
    } else if c == '4' {
        Some(4)
    } else if c == '5' {
        Some(5)
    } else if c == '6' {
        Some(6)
    } else if c == '7' {
        Some(7)
    } else if c == '8' {
        Some(8)
    } else if c == '9' {
        Some(9)
    } else {
        None
    }
}

/// Writes `n` as a decimal numeral.
pub fn u32_to_decimal(n: u32) -> (r: String)
    ensures
        r@ == decimal_text(n as nat),
    decreases n,
{
    if n < 10 {
        let mut s = String::new();
        s.push(digit_of(n));
        s
    } else {
        let mut s = u32_to_decimal(n / 10);
        s.push(digit_of(n % 10));
        s
    }
}

/// Reads a decimal literal as a `u32`; `None` where the text is no such
/// literal or its value does not fit.
pub fn parse_u32(s: &str) -> (r: Option<u32>)
    ensures
        r == parse_u32_spec(s@),
{
    let ghost start: int = if s@.len() > 0 && s@[0] == '+' {
        1
    } else {
        0
    };
    let ghost digits: Seq<char> = s@.subrange(start, s@.len() as int);
    proof {
        if start == 0 {
            assert(digits =~= s@);
        } else {
            assert(digits =~= s@.drop_first());
        }
    }
    let mut acc: u64 = 0;
    let mut at_start: bool = true;
    let mut any_digit: bool = false;
    for c in it: s.chars()
        invariant
            it.seq() == s@,
            digits == s@.subrange(start, s@.len() as int),
            start == (if s@.len() > 0 && s@[0] == '+' {
                1int
            } else {
                0int
            }),
            parse_u32_spec(s@) == (match digits_value(digits) {
                Some(v) => if v <= u32::MAX {
                    Some(v as u32)
                } else {
                    None
                },
                None => None,
            }),
            at_start == (it.index() == 0),
            any_digit == (it.index() > start),
            acc <= u32::MAX,
            any_digit ==> digits_value(digits.take(it.index() - start)) == Some(acc as nat),
            !any_digit ==> acc == 0,
    {
        if at_start && c == '+' {
            at_start = false;
        } else {
            at_start = false;
            let ghost prefix: Seq<char> = digits.take(it.index() - start + 1);
            proof {
                assert(prefix.last() == c);
                assert(prefix.drop_last() =~= digits.take(it.index() - start));
                if digits_value(digits) is Some {
                    lemma_digits_prefix(digits, it.index() - start + 1);
                }
            }
            match value_of_digit(c) {
                None => {
                    return None;
                },
                Some(d) => {
                    let next: u64 = acc * 10 + d;
                    if next > 0xffff_ffff {
                        return None;
                    }
                    acc = next;
                    any_digit = true;
                },
            }
        }
    }
    if !any_digit {
        return None;
    }
    assert(digits.take(s@.len() - start) =~= digits);
    Some(acc as u32)
}

/// The literal that the wire format writes for a boolean.
pub open spec fn bool_text(b: bool) -> Seq<char> {
    if b {
        "true"@
    } else {
        "false"@
    }
}

/// What a boolean literal denotes: `true` and `1` are true, `false` and
/// `0` are false, and any other text denotes nothing.
pub open spec fn parse_bool_spec(s: Seq<char>) -> Option<bool> {
    if s == "true"@ || s == "1"@ {
        Some(true)
    } else if s == "false"@ || s == "0"@ {
        Some(false)
    } else {
        None
    }
}

/// Writes a boolean as its literal.
pub fn bool_to_text(b: bool) -> (r: String)
    ensures
        r@ == bool_text(b),
{
    if b {
        "true".to_owned()
    } else {
        "false".to_owned()
    }
}

/// Reads a boolean literal; `None` for text that is none.
pub fn parse_bool(s: &str) -> (r: Option<bool>)
    ensures
        r == parse_bool_spec(s@),
{
    if str_equal(s, "true") || str_equal(s, "1") {
        Some(true)
    } else if str_equal(s, "false") || str_equal(s, "0") {
        Some(false)
    } else {
        None
    }
}

/// A boolean written and read back is the same boolean.
pub proof fn lemma_bool_text_round_trip(b: bool)
    ensures
        parse_bool_spec(bool_text(b)) == Some(b),
{
    reveal_strlit("true");
    reveal_strlit("false");
    reveal_strlit("1");
    reveal_strlit("0");
    if !b {
        assert("false"@.len() != "1"@.len());
    }
}

/// A mark by which short texts are told apart: the length of the text and
/// its characters at the places `i` and `j`, a space standing for a
/// character that the text is too short to have. Texts with different
/// marks are different texts.
pub open spec fn mark(s: Seq<char>, i: int, j: int) -> (nat, char, char) {
    (
        s.len(),
        if 0 <= i < s.len() {
            s[i]
        } else {
            ' '
        },
        if 0 <= j < s.len() {
            s[j]
        } else {
            ' '
        },
    )
}

} // verus!
