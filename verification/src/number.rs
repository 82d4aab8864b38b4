//! Numbers as decimal texts.
//!
//! A text stands for a number if it is a sign, `+` or `-`, or none, followed by one
//! or more of the digits `0` to `9`, and nothing else. Leading zeros do not matter.

use vstd::prelude::*;
use vstd::string::StrSliceExecFns;

verus! {

/// Whether a character is one of the digits `0` to `9`.
pub open spec fn is_digit(c: char) -> bool {
    '0' <= c && c <= '9'
}

/// Whether a text is made of digits only.
pub open spec fn all_digits(s: Seq<char>) -> bool {
    forall|i: int| 0 <= i < s.len() ==> is_digit(#[trigger] s[i])
}

/// The number that a text of digits stands for.
pub open spec fn digits_value(s: Seq<char>) -> int
    decreases s.len(),
{
    if s.len() == 0 {
        0
    } else {
        10 * digits_value(s.drop_last()) + (s.last() as int - '0' as int)
    }
}

/// The digits of a text: the text without its sign.
pub open spec fn digits_of(s: Seq<char>) -> Seq<char> {
    if s.len() > 0 && (s[0] == '-' || s[0] == '+') {
        s.skip(1)
    } else {
        s
    }
}

/// The number that a text stands for, if it stands for one.
pub open spec fn number_of_text(s: Seq<char>) -> Option<int> {
    let digits = digits_of(s);
    if digits.len() > 0 && all_digits(digits) {
        Some(
            if s[0] == '-' {
                -digits_value(digits)
            } else {
                digits_value(digits)
            },
        )
    } else {
        None
    }
}

/// The 64-bit number that a text stands for: none if the text stands for no number or
/// for one that 64 bits do not hold.
pub open spec fn long_of_text(s: Seq<char>) -> Option<i64> {
    match number_of_text(s) {
        Some(v) => if i64::MIN <= v <= i64::MAX {
            Some(v as i64)
        } else {
            None
        },
        None => None,
    }
}

/// The 32-bit number that a text stands for: none if the text stands for no number or
/// for one that 32 bits do not hold.
pub open spec fn integer_of_text(s: Seq<char>) -> Option<i32> {
    match number_of_text(s) {
        Some(v) => if i32::MIN <= v <= i32::MAX {
            Some(v as i32)
        } else {
            None
        },
        None => None,
    }
}

/// A text of digits stands for no less than any of its beginnings, and for no less
/// than zero.
pub proof fn lemma_digits_grow(s: Seq<char>, n: int)
    requires
        all_digits(s),
        0 <= n <= s.len(),
    ensures
        0 <= digits_value(s.take(n)) <= digits_value(s),
    decreases s.len(),
{
    if s.len() == 0 {
        assert(s.take(n) == s);
    } else if n == s.len() {
        assert(s.take(n) == s);
        lemma_digits_grow(s.drop_last(), n - 1);
        assert(is_digit(s.last()));
    } else {
        let t = s.drop_last();
        assert forall|i: int| 0 <= i < t.len() implies is_digit(#[trigger] t[i]) by {
            assert(t[i] == s[i]);
        }
        lemma_digits_grow(t, n);
        assert(t.take(n) == s.take(n));
        assert(is_digit(s.last()));
    }
}

/// The value of a character as a digit, if it is one.
fn digit(c: char) -> (r: Option<u8>)
    ensures
        match r {
            Some(d) => is_digit(c) && d == c as int - '0' as int,
            None => !is_digit(c),
        },
{
    match c {
        '0' => Some(0),
        '1' => Some(1),
        '2' => Some(2),
        '3' => Some(3),
        '4' => Some(4),
        '5' => Some(5),
        '6' => Some(6),
        '7' => Some(7),
        '8' => Some(8),
        '9' => Some(9),
        _ => None,
    }
}

/// The 64-bit number that a text stands for.
pub fn parse_long(text: &str) -> (r: Option<i64>)
    ensures
        r == long_of_text(text@),
{
    let n = text.unicode_len();
    if n == 0 {
        return None;
    }
    let first = text.get_char(0);
    let negative = first == '-';
    let start: usize = if first == '-' || first == '+' {
        1
    } else {
        0
    };
    if start == n {
        return None;
    }
    let ghost digits = digits_of(text@);
    assert(digits == text@.skip(start as int));
    let mut value: i128 = 0;
    let mut i: usize = start;
    proof {
        assert(digits.take(0) =~= Seq::<char>::empty());
    }
    while i < n
        invariant
            start <= i <= n,
            n == text@.len(),
            start <= 1,
            digits == digits_of(text@),
            digits == text@.skip(start as int),
            all_digits(digits.take(i - start)),
            value == digits_value(digits.take(i - start)),
            0 <= value <= 9223372036854775808,
        decreases n - i,
    {
        let c = text.get_char(i);
        let ghost k = i - start;
        assert(digits[k] == c);
        match digit(c) {
            Some(d) => {
                proof {
                    assert(digits.take(k + 1).drop_last() == digits.take(k));
                    assert(digits.take(k + 1).last() == c);
                    assert forall|j: int| 0 <= j < k + 1 implies is_digit(
                        #[trigger] digits.take(k + 1)[j],
                    ) by {
                        if j < k {
                            assert(digits.take(k)[j] == digits.take(k + 1)[j]);
                        }
                    }
                }
                value = value * 10 + d as i128;
                assert(value == digits_value(digits.take(k + 1)));
                if value > 9223372036854775808 {
                    proof {
                        if all_digits(digits) {
                            lemma_digits_grow(digits, k + 1);
                        }
                    }
                    return None;
                }
            },
            None => {
                assert(!is_digit(digits[k]));
                return None;
            },
        }
        i += 1;
    }
    proof {
        assert(digits.take(n - start) == digits);
    }
    if negative {
        Some((-value) as i64)
    } else if value > 9223372036854775807 {
        None
    } else {
        Some(value as i64)
    }
}

/// The 32-bit number that a text stands for.
pub fn parse_integer(text: &str) -> (r: Option<i32>)
    ensures
        r == integer_of_text(text@),
{
    match parse_long(text) {
        Some(v) => {
            if v < -2147483648 || v > 2147483647 {
                None
            } else {
                Some(v as i32)
            }
        },
        None => {
            proof {
                let digits = digits_of(text@);
                if number_of_text(text@) is Some {
                    lemma_digits_grow(digits, 0);
                }
            }
            None
        },
    }
}

/// The digit that stands for a number below ten.
pub open spec fn digit_char(d: int) -> char {
    if d == 0 {
        '0'
    } else if d == 1 {
        '1'
    } else if d == 2 {
        '2'
    } else if d == 3 {
        '3'
    } else if d == 4 {
        '4'
    } else if d == 5 {
        '5'
    } else if d == 6 {
        '6'
    } else if d == 7 {
        '7'
    } else if d == 8 {
        '8'
    } else {
        '9'
    }
}

/// The digits that stand for a number that is not below zero, without leading zeros.
pub open spec fn digits_text(v: int) -> Seq<char>
    decreases v,
{
    if v < 10 {
        seq![digit_char(v)]
    } else {
        digits_text(v / 10).push(digit_char(v % 10))
    }
}

/// The text that stands for a number: its digits, behind a `-` if it is below zero.
pub open spec fn number_text(v: int) -> Seq<char> {
    if v < 0 {
        seq!['-'] + digits_text(-v)
    } else {
        digits_text(v)
    }
}

/// The digits of a number stand for the number.
pub proof fn lemma_digits_text(v: int)
    requires
        0 <= v,
    ensures
        digits_text(v).len() > 0,
        all_digits(digits_text(v)),
        digits_value(digits_text(v)) == v,
    decreases v,
{
    if v < 10 {
        let s = digits_text(v);
        assert(s.drop_last() =~= Seq::<char>::empty());
        assert(digits_value(s.drop_last()) == 0);
        assert(s.last() == digit_char(v));
    } else {
        lemma_digits_text(v / 10);
        let t = digits_text(v / 10);
        let s = digits_text(v);
        assert(s.drop_last() =~= t);
        assert(s.last() == digit_char(v % 10));
        assert forall|i: int| 0 <= i < s.len() implies is_digit(#[trigger] s[i]) by {
            if i < t.len() {
                assert(s[i] == t[i]);
            }
        }
    }
}

/// The text of a number stands for the number.
pub proof fn law_number_text_round_trip(v: int)
    ensures
        number_of_text(number_text(v)) == Some(v),
{
    if v < 0 {
        lemma_digits_text(-v);
        let s = number_text(v);
        assert(s[0] == '-');
        assert(s.skip(1) =~= digits_text(-v));
    } else {
        lemma_digits_text(v);
        let s = number_text(v);
        assert(is_digit(s[0]));
    }
}

/// The digit that stands for a number below ten, as a text.
fn digit_text(d: u8) -> (r: &'static str)
    requires
        d < 10,
    ensures
        r@ == seq![digit_char(d as int)],
{
    proof {
        reveal_strlit("0");
        reveal_strlit("1");
        reveal_strlit("2");
        reveal_strlit("3");
        reveal_strlit("4");
        reveal_strlit("5");
        reveal_strlit("6");
        reveal_strlit("7");
        reveal_strlit("8");
        reveal_strlit("9");
    }
    let r = match d {
        0 => "0",
        1 => "1",
        2 => "2",
        3 => "3",
        4 => "4",
        5 => "5",
        6 => "6",
        7 => "7",
        8 => "8",
        _ => "9",
    };
    assert(r@ =~= seq![digit_char(d as int)]);
    r
}

/// The digits that stand for a number that is not below zero.
fn show_digits(v: u64) -> (r: String)
    ensures
        r@ == digits_text(v as int),
    decreases v,
{
    if v < 10 {
        digit_text(v as u8).to_owned()
    } else {
        let front = show_digits(v / 10);
        front.concat(digit_text((v % 10) as u8))
    }
}

/// The text that stands for a 64-bit number.
pub fn show_long(v: i64) -> (r: String)
    ensures
        r@ == number_text(v as int),
{
    if v < 0 {
        let magnitude: u64 = if v == i64::MIN {
            9223372036854775808
        } else {
            (-v) as u64
        };
        proof {
            reveal_strlit("-");
            assert("-"@ =~= seq!['-']);
        }
        "-".to_owned().concat(show_digits(magnitude).as_str())
    } else {
        show_digits(v as u64)
    }
}

/// The text that a sequence of bytes is shown as, from the byte at position `from`
/// on: each byte as a number, with a comma and a blank before every byte but the
/// first of the sequence.
pub open spec fn bytes_from(bytes: Seq<u8>, from: int) -> Seq<char>
    decreases bytes.len() - from,
{
    if from < 0 || from >= bytes.len() {
        Seq::empty()
    } else if from == 0 {
        digits_text(bytes[from] as int) + bytes_from(bytes, from + 1)
    } else {
        seq![',', ' '] + digits_text(bytes[from] as int) + bytes_from(bytes, from + 1)
    }
}

/// The text that a sequence of bytes is shown as: the bytes as numbers, separated by
/// a comma and a blank, in square brackets.
pub open spec fn bytes_text(bytes: Seq<u8>) -> Seq<char> {
    seq!['['] + bytes_from(bytes, 0) + seq![']']
}

/// The text of the bytes from a position on.
fn show_bytes_from(bytes: &Vec<u8>, from: usize) -> (r: String)
    ensures
        r@ == bytes_from(bytes@, from as int),
    decreases bytes.len() - from,
{
    if from >= bytes.len() {
        String::new()
    } else {
        let number = show_digits(bytes[from] as u64);
        let rest = show_bytes_from(bytes, from + 1);
        if from == 0 {
            number.concat(rest.as_str())
        } else {
            proof {
                reveal_strlit(", ");
                assert(", "@ =~= seq![',', ' ']);
            }
            ", ".to_owned().concat(number.as_str()).concat(rest.as_str())
        }
    }
}

/// The text that a sequence of bytes is shown as.
pub fn show_bytes(bytes: &Vec<u8>) -> (r: String)
    ensures
        r@ == bytes_text(bytes@),
{
    proof {
        reveal_strlit("[");
        reveal_strlit("]");
        assert("["@ =~= seq!['[']);
        assert("]"@ =~= seq![']']);
    }
    "[".to_owned().concat(show_bytes_from(bytes, 0).as_str()).concat("]")
}

} // verus!
