//! The words of the command line: names matched without regard to ASCII case,
//! and cell counts written in decimal.

use vstd::prelude::*;
use vstd::string::*;

verus! {

/// The upper-case form of an ASCII letter; any other character is itself.
pub open spec fn ascii_upper(c: char) -> char {
    if 'a' <= c && c <= 'z' {
        ((c as u8 - 32) as u8) as char
    } else {
        c
    }
}

/// Whether `c` is an ASCII character.
pub open spec fn is_ascii_char(c: char) -> bool {
    '\0' <= c && c <= '\u{7f}'
}

/// Two words are the same name when they have the same length and agree
/// character by character once ASCII letters are put in upper case.
pub open spec fn eq_ignore_case(a: Seq<char>, b: Seq<char>) -> bool {
    a.len() == b.len() && forall|i: int|
        0 <= i < a.len() ==> ascii_upper(#[trigger] a[i]) == ascii_upper(b[i])
}

fn upper_byte(b: u8) -> (r: u8)
    requires
        b < 128,
    ensures
        r < 128,
        r as char == ascii_upper(b as char),
{
    if 97 <= b && b <= 122 {
        b - 32
    } else {
        b
    }
}

fn upper_code(c: char) -> (r: u32)
    ensures
        r == ascii_upper(c) as u32,
{
    let code: u32 = c as u32;
    if 97 <= code && code <= 122 {
        code - 32
    } else {
        code
    }
}

/// Whether `word` is `name`, ASCII case aside.
pub fn matches_name(word: &str, name: &str) -> (r: bool)
    ensures
        r == eq_ignore_case(word@, name@),
{
    broadcast use vstd::utf8::is_ascii_chars_nat_bound;

    let n: usize = word.unicode_len();
    if n != name.unicode_len() {
        return false;
    }
    let plain: bool = word.is_ascii() && name.is_ascii();
    let mut i: usize = 0;
    while i < n
        invariant
            i <= n,
            n == word@.len(),
            n == name@.len(),
            plain ==> word.is_ascii() && name.is_ascii(),
            forall|j: int| 0 <= j < i ==> ascii_upper(#[trigger] word@[j]) == ascii_upper(name@[j]),
        decreases n - i,
    {
        let same: bool = if plain {
            let a: u8 = word.get_ascii(i);
            let b: u8 = name.get_ascii(i);
            assert((word@[i as int] as nat) < 128 && (name@[i as int] as nat) < 128);
            assert(a as char == word@[i as int] && b as char == name@[i as int]);
            upper_byte(a) == upper_byte(b)
        } else {
            upper_code(word.get_char(i)) == upper_code(name.get_char(i))
        };
        if !same {
            assert(ascii_upper(word@[i as int]) != ascii_upper(name@[i as int]));
            return false;
        }
        i += 1;
    }
    true
}

/// Whether `c` is a decimal digit.
pub open spec fn is_digit(c: char) -> bool {
    '0' <= c && c <= '9'
}

/// The number a decimal digit stands for.
pub open spec fn digit_value(c: char) -> int {
    c as int - 48
}

/// The number that a run of decimal digits writes.
pub open spec fn decimal_value(digits: Seq<char>) -> int
    decreases digits.len(),
{
    if digits.len() == 0 {
        0
    } else {
        decimal_value(digits.drop_last()) * 10 + digit_value(digits.last())
    }
}

/// The character that writes a number below ten.
pub open spec fn digit_char(d: nat) -> char {
    ((d + 48) as u8) as char
}

/// The usual decimal writing of a number: no sign, no leading zero.
pub open spec fn decimal_digits(n: nat) -> Seq<char>
    decreases n,
{
    if n < 10 {
        seq![digit_char(n)]
    } else {
        decimal_digits(n / 10).push(digit_char(n % 10))
    }
}

/// Whether every character is a decimal digit.
pub open spec fn all_digits(s: Seq<char>) -> bool {
    forall|i: int| 0 <= i < s.len() ==> is_digit(#[trigger] s[i])
}

/// The word without the plus sign that may stand before its digits.
pub open spec fn unsigned_part(word: Seq<char>) -> Seq<char> {
    if word.len() > 0 && word[0] == '+' {
        word.drop_first()
    } else {
        word
    }
}

/// The cell count that a word writes: one or more decimal digits, a plus sign
/// before them if any, whose number is at least one and fits the machine word.
pub open spec fn cell_count(word: Seq<char>) -> Option<usize> {
    let digits = unsigned_part(word);
    if digits.len() >= 1 && all_digits(digits) && 1 <= decimal_value(digits) <= usize::MAX {
        Some(decimal_value(digits) as usize)
    } else {
        None
    }
}

/// A run of digits writes a number no smaller than any of its beginnings does.
pub proof fn lemma_decimal_value_grows(digits: Seq<char>, k: int)
    requires
        all_digits(digits),
        0 <= k <= digits.len(),
    ensures
        0 <= decimal_value(digits.take(k)) <= decimal_value(digits),
    decreases digits.len(),
{
    if digits.len() == 0 {
        assert(digits.take(k) =~= digits);
    } else if k == digits.len() {
        assert(digits.take(k) =~= digits);
        lemma_decimal_value_grows(digits.drop_last(), k - 1);
        assert(is_digit(digits.last()));
    } else {
        assert(digits.drop_last().take(k) =~= digits.take(k));
        assert forall|i: int| 0 <= i < digits.drop_last().len() implies is_digit(
            #[trigger] digits.drop_last()[i],
        ) by {
            assert(digits.drop_last()[i] == digits[i]);
        }
        lemma_decimal_value_grows(digits.drop_last(), k);
        lemma_decimal_value_grows(digits.drop_last(), digits.len() - 1);
        assert(is_digit(digits.last()));
    }
}

/// Reads a cell count.
pub fn parse_cell_count(word: &str) -> (r: Option<usize>)
    ensures
        r == cell_count(word@),
{
    broadcast use vstd::utf8::is_ascii_chars_nat_bound;

    if !word.is_ascii() {
        proof {
            let i = choose|i: int| 0 <= i < word@.len() && !is_ascii_char(#[trigger] word@[i]);
            let digits = unsigned_part(word@);
            if i == 0 {
                assert(digits =~= word@);
                assert(!is_digit(digits[0]));
            } else if digits.len() == word@.len() {
                assert(!is_digit(digits[i]));
            } else {
                assert(digits[i - 1] == word@[i]);
                assert(!is_digit(digits[i - 1]));
            }
        }
        return None;
    }
    let n: usize = word.unicode_len();
    let start: usize = if n > 0 && word.get_ascii(0) == 43 {
        1
    } else {
        0
    };
    let ghost digits = unsigned_part(word@);
    assert(digits =~= word@.subrange(start as int, n as int)) by {
        if n > 0 {
            assert((word@[0] as nat) < 128);
        }
    }
    if start == n {
        return None;
    }
    let mut value: usize = 0;
    let mut i: usize = start;
    while i < n
        invariant
            start <= i <= n,
            n == word@.len(),
            word.is_ascii(),
            digits == unsigned_part(word@),
            digits == word@.subrange(start as int, n as int),
            all_digits(digits.take(i - start)),
            value == decimal_value(digits.take(i - start)),
        decreases n - i,
    {
        let b: u8 = word.get_ascii(i);
        let ghost c = word@[i as int];
        assert((c as nat) < 128 && c == digits[i - start]);
        let ghost next = digits.take(i - start + 1);
        assert(next.drop_last() =~= digits.take(i - start));
        assert(next.last() == c);
        if b < 48 || b > 57 {
            assert(!is_digit(digits[i - start]));
            return None;
        }
        let d: usize = (b - 48) as usize;
        assert(d == digit_value(c));
        assert(all_digits(next));
        if value > (usize::MAX - d) / 10 {
            proof {
                assert(decimal_value(next) > usize::MAX);
                if all_digits(digits) {
                    lemma_decimal_value_grows(digits, i - start + 1);
                }
            }
            return None;
        }
        value = value * 10 + d;
        i += 1;
    }
    assert(digits.take(i - start) =~= digits);
    if value == 0 {
        None
    } else {
        Some(value)
    }
}

} // verus!
