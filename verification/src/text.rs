//! Text primitives shared by the codecs: string comparison, decimal numbers
//! and whitespace-separated tokens.

use vstd::prelude::*;
use vstd::string::StringSliceAdditionalSpecFns;
use vstd::utf8::encode_utf8_decode_utf8;

verus! {

/// Compares two strings.
pub fn same_text(a: &str, b: &str) -> (same: bool)
    ensures
        same == (a@ == b@),
{
    let x = a.as_bytes();
    let y = b.as_bytes();
    proof {
        encode_utf8_decode_utf8(a@);
        encode_utf8_decode_utf8(b@);
    }
    if x.len() != y.len() {
        return false;
    }
    let mut i: usize = 0;
    while i < x.len()
        invariant
            i <= x.len(),
            x.len() == y.len(),
            x@ == a.spec_bytes(),
            y@ == b.spec_bytes(),
            forall|j: int| 0 <= j < i ==> x@[j] == y@[j],
        decreases x.len() - i,
    {
        if x[i] != y[i] {
            return false;
        }
        i += 1;
    }
    assert(x@ =~= y@);
    true
}

/// Whether `text` begins with `prefix`.
pub open spec fn spec_starts_with(text: Seq<char>, prefix: Seq<char>) -> bool {
    prefix.len() <= text.len() && text.subrange(0, prefix.len() as int) == prefix
}

/// Tests whether `text` begins with `prefix`.
pub fn starts_with(text: &str, prefix: &str) -> (yes: bool)
    ensures
        yes == spec_starts_with(text@, prefix@),
{
    let n = prefix.unicode_len();
    if text.unicode_len() < n {
        return false;
    }
    same_text(text.substring_char(0, n), prefix)
}

/// Whether `c` is one of the ten decimal digits.
pub open spec fn is_digit(c: char) -> bool {
    '0' <= c && c <= '9'
}

/// The number that the digit `c` stands for.
pub open spec fn digit_value(c: char) -> nat {
    (c as u32 - '0' as u32) as nat
}

/// Whether every character of `text` is a decimal digit.
pub open spec fn all_digits(text: Seq<char>) -> bool {
    forall|i: int| 0 <= i < text.len() ==> is_digit(#[trigger] text[i])
}

/// The number that a sequence of decimal digits denotes; the empty sequence
/// denotes zero.
pub open spec fn decimal_value(digits: Seq<char>) -> nat
    decreases digits.len(),
{
    if digits.len() == 0 {
        0
    } else {
        decimal_value(digits.drop_last()) * 10 + digit_value(digits.last())
    }
}

/// The digits of an unsigned number: the text without its optional leading
/// plus sign.
pub open spec fn unsigned_digits(text: Seq<char>) -> Seq<char> {
    if text.len() > 0 && text[0] == '+' {
        text.skip(1)
    } else {
        text
    }
}

/// The unsigned number that `text` denotes, if it is one and does not exceed
/// `max`. The syntax is an optional `+` and then one or more decimal digits;
/// leading zeros are allowed.
pub open spec fn spec_parse_unsigned(text: Seq<char>, max: nat) -> Option<nat> {
    let digits = unsigned_digits(text);
    if digits.len() > 0 && all_digits(digits) && decimal_value(digits) <= max {
        Some(decimal_value(digits))
    } else {
        None
    }
}

/// A number never denotes less than any prefix of its digits.
pub proof fn lemma_decimal_value_prefix(digits: Seq<char>, k: int)
    requires
        0 <= k <= digits.len(),
    ensures
        decimal_value(digits.take(k)) <= decimal_value(digits),
    decreases digits.len(),
{
    if k == digits.len() {
        assert(digits.take(k) =~= digits);
    } else {
        assert(digits.drop_last().take(k) =~= digits.take(k));
        lemma_decimal_value_prefix(digits.drop_last(), k);
    }
}

fn parse_bounded(text: &str, max: u32) -> (number: Option<u32>)
    requires
        max <= 0xffff,
    ensures
        number matches Some(n) ==> spec_parse_unsigned(text@, max as nat) == Some(n as nat),
        number is None ==> spec_parse_unsigned(text@, max as nat) is None,
{
    let len = text.unicode_len();
    let start: usize = if len > 0 && text.get_char(0) == '+' {
        1
    } else {
        0
    };
    let ghost digits = unsigned_digits(text@);
    assert(digits =~= text@.subrange(start as int, len as int));
    if start == len {
        return None;
    }
    let mut value: u32 = 0;
    let mut i: usize = start;
    assert(digits.take(0) =~= Seq::<char>::empty());
    while i < len
        invariant
            start <= i <= len,
            len == text@.len(),
            max <= 0xffff,
            digits == unsigned_digits(text@),
            digits == text@.subrange(start as int, len as int),
            all_digits(digits.take(i - start)),
            value == decimal_value(digits.take(i - start)),
            value <= max,
        decreases len - i,
    {
        let c = text.get_char(i);
        if !(c >= '0' && c <= '9') {
            assert(!is_digit(digits[i - start]));
            return None;
        }
        let next: u32 = value * 10 + (c as u32 - '0' as u32);
        proof {
            let longer = digits.take(i - start + 1);
            assert(longer.drop_last() =~= digits.take(i - start));
            assert(longer.last() == c);
            assert(next == decimal_value(longer));
            assert forall|j: int| 0 <= j < longer.len() implies is_digit(#[trigger] longer[j]) by {
                if j < i - start {
                    assert(longer[j] == digits.take(i - start)[j]);
                }
            }
        }
        if next > max {
            proof {
                lemma_decimal_value_prefix(digits, i - start + 1);
            }
            return None;
        }
        value = next;
        i += 1;
    }
    assert(digits.take(len - start) =~= digits);
    Some(value)
}

/// Parses an unsigned number that fits in eight bits.
pub fn parse_u8(text: &str) -> (number: Option<u8>)
    ensures
        number matches Some(n) ==> spec_parse_unsigned(text@, 0xff) == Some(n as nat),
        number is None ==> spec_parse_unsigned(text@, 0xff) is None,
{
    match parse_bounded(text, 0xff) {
        Some(n) => Some(n as u8),
        None => None,
    }
}

/// Parses an unsigned number that fits in sixteen bits.
pub fn parse_u16(text: &str) -> (number: Option<u16>)
    ensures
        number matches Some(n) ==> spec_parse_unsigned(text@, 0xffff) == Some(n as nat),
        number is None ==> spec_parse_unsigned(text@, 0xffff) is None,
{
    match parse_bounded(text, 0xffff) {
        Some(n) => Some(n as u16),
        None => None,
    }
}

/// The character that writes the digit value `d`, `0` to `15`, in lower-case
/// hexadecimal; for `d` below ten that is its decimal digit.
pub open spec fn digit_char(d: int) -> char {
    if d == 0 {
        '0'
    } else if d == 1 {
        '1'
    } else if d == 2 {
        '2'
    } else if d == 3 {
        '3'
    } else if d == 4 {
        '4'
    } else if d == 5 {
        '5'
    } else if d == 6 {
        '6'
    } else if d == 7 {
        '7'
    } else if d == 8 {
        '8'
    } else if d == 9 {
        '9'
    } else if d == 10 {
        'a'
    } else if d == 11 {
        'b'
    } else if d == 12 {
        'c'
    } else if d == 13 {
        'd'
    } else if d == 14 {
        'e'
    } else {
        'f'
    }
}

/// The one-character string that writes the digit value `d`.
pub(crate) fn digit_str(d: u8) -> (s: &'static str)
    requires
        d < 16,
    ensures
        s@ == seq![digit_char(d as int)],
{
    proof {
        reveal_strlit("0");
        reveal_strlit("1");
        reveal_strlit("2");
        reveal_strlit("3");
        reveal_strlit("4");
        reveal_strlit("5");
        reveal_strlit("6");
        reveal_strlit("7");
        reveal_strlit("8");
        reveal_strlit("9");
        reveal_strlit("a");
        reveal_strlit("b");
        reveal_strlit("c");
        reveal_strlit("d");
        reveal_strlit("e");
        reveal_strlit("f");
    }
    let s = match d {
        0 => "0",
        1 => "1",
        2 => "2",
        3 => "3",
        4 => "4",
        5 => "5",
        6 => "6",
        7 => "7",
        8 => "8",
        9 => "9",
        10 => "a",
        11 => "b",
        12 => "c",
        13 => "d",
        14 => "e",
        _ => "f",
    };
    assert(s@ =~= seq![digit_char(d as int)]);
    s
}

/// The decimal digits of `n`, without leading zeros.
pub open spec fn decimal_digits(n: nat) -> Seq<char>
    decreases n,
{
    if n < 10 {
        seq![digit_char(n as int)]
    } else {
        decimal_digits(n / 10).push(digit_char((n % 10) as int))
    }
}

/// Writes `n` in decimal.
pub fn format_u8(n: u8) -> (text: String)
    ensures
        text@ == decimal_digits(n as nat),
{
    let mut text = String::new();
    if n >= 100 {
        text.append(digit_str(n / 100));
    }
    if n >= 10 {
        text.append(digit_str((n / 10) % 10));
    }
    text.append(digit_str(n % 10));
    proof {
        let v = n as nat;
        reveal_with_fuel(decimal_digits, 3);
        assert(text@ =~= decimal_digits(v));
    }
    text
}

/// Reading back the decimal digits of a number gives that number.
pub proof fn lemma_decimal_round_trip(n: nat)
    ensures
        decimal_digits(n).len() > 0,
        all_digits(decimal_digits(n)),
        decimal_digits(n)[0] != '+',
        decimal_value(decimal_digits(n)) == n,
    decreases n,
{
    let digits = decimal_digits(n);
    if n < 10 {
        assert(digits.drop_last() =~= Seq::<char>::empty());
        assert(decimal_value(digits.drop_last()) == 0);
    } else {
        lemma_decimal_round_trip(n / 10);
        let head = decimal_digits(n / 10);
        assert(digits.drop_last() =~= head);
        assert(digits[0] == head[0]);
        assert forall|i: int| 0 <= i < digits.len() implies is_digit(#[trigger] digits[i]) by {
            if i < head.len() {
                assert(digits[i] == head[i]);
            }
        }
    }
}

/// Parsing the decimal digits of a number that is within the bound gives
/// that number.
pub proof fn lemma_parse_decimal_digits(n: nat, max: nat)
    requires
        n <= max,
    ensures
        spec_parse_unsigned(decimal_digits(n), max) == Some(n),
{
    lemma_decimal_round_trip(n);
}

/// Whether `c` separates tokens: the characters with the Unicode property
/// `White_Space`.
pub open spec fn is_whitespace(c: char) -> bool {
    ||| ('\u{9}' <= c && c <= '\u{d}')
    ||| c == ' '
    ||| c == '\u{85}'
    ||| c == '\u{a0}'
    ||| c == '\u{1680}'
    ||| ('\u{2000}' <= c && c <= '\u{200a}')
    ||| c == '\u{2028}'
    ||| c == '\u{2029}'
    ||| c == '\u{202f}'
    ||| c == '\u{205f}'
    ||| c == '\u{3000}'
}

/// Tests whether `c` separates tokens.
pub fn whitespace(c: char) -> (yes: bool)
    ensures
        yes == is_whitespace(c),
{
    (c >= '\u{9}' && c <= '\u{d}') || c == ' ' || c == '\u{85}' || c == '\u{a0}' || c
        == '\u{1680}' || (c >= '\u{2000}' && c <= '\u{200a}') || c == '\u{2028}' || c
        == '\u{2029}' || c == '\u{202f}' || c == '\u{205f}' || c == '\u{3000}'
}

/// Length of the longest prefix of `text` that holds no whitespace.
pub open spec fn token_len(text: Seq<char>) -> nat
    decreases text.len(),
{
    if text.len() == 0 || is_whitespace(text[0]) {
        0
    } else {
        1 + token_len(text.skip(1))
    }
}

/// The tokens of `text`: its maximal runs of characters that are not
/// whitespace, from left to right.
pub open spec fn tokens(text: Seq<char>) -> Seq<Seq<char>>
    decreases text.len(),
    via tokens_decreases
{
    if text.len() == 0 {
        Seq::empty()
    } else if is_whitespace(text[0]) {
        tokens(text.skip(1))
    } else {
        let n = token_len(text) as int;
        seq![text.take(n)] + tokens(text.skip(n))
    }
}

#[via_fn]
proof fn tokens_decreases(text: Seq<char>) {
    if text.len() > 0 && !is_whitespace(text[0]) {
        lemma_token_len_bounds(text);
    }
}

/// A token is never longer than the text and, where the text begins with a
/// character that is not whitespace, never empty.
pub proof fn lemma_token_len_bounds(text: Seq<char>)
    ensures
        token_len(text) <= text.len(),
        text.len() > 0 && !is_whitespace(text[0]) ==> token_len(text) >= 1,
    decreases text.len(),
{
    if text.len() > 0 && !is_whitespace(text[0]) {
        lemma_token_len_bounds(text.skip(1));
    }
}

/// The first `k` characters of `text` are its first token where none of them
/// is whitespace and the text ends or goes on with whitespace after them.
pub proof fn lemma_token_len_is(text: Seq<char>, k: int)
    requires
        0 <= k <= text.len(),
        forall|j: int| 0 <= j < k ==> !is_whitespace(#[trigger] text[j]),
        k == text.len() || is_whitespace(text[k]),
    ensures
        token_len(text) == k,
    decreases k,
{
    if k > 0 {
        let rest = text.skip(1);
        assert forall|j: int| 0 <= j < k - 1 implies !is_whitespace(#[trigger] rest[j]) by {
            assert(rest[j] == text[j + 1]);
        }
        lemma_token_len_is(rest, k - 1);
    }
}

/// Splits `text` at whitespace.
pub fn split_whitespace(text: &str) -> (parts: Vec<String>)
    ensures
        parts.deep_view() == tokens(text@),
{
    let len = text.unicode_len();
    let mut parts: Vec<String> = Vec::new();
    let mut i: usize = 0;
    assert(text@.skip(0) =~= text@);
    assert(parts.deep_view() =~= Seq::<Seq<char>>::empty());
    while i < len
        invariant
            i <= len,
            len == text@.len(),
            tokens(text@) == parts.deep_view() + tokens(text@.skip(i as int)),
        decreases len - i,
    {
        let ghost rest = text@.skip(i as int);
        if whitespace(text.get_char(i)) {
            assert(rest.skip(1) =~= text@.skip(i + 1));
            i += 1;
        } else {
            let start = i;
            let mut end = i + 1;
            loop
                invariant
                    start < end <= len,
                    len == text@.len(),
                    forall|j: int| start <= j < end ==> !is_whitespace(#[trigger] text@[j]),
                ensures
                    end == len || is_whitespace(text@[end as int]),
                decreases len - end,
            {
                if end == len {
                    break;
                }
                if whitespace(text.get_char(end)) {
                    break;
                }
                end += 1;
            }
            let token = text.substring_char(start, end).to_owned();
            let ghost before = parts.deep_view();
            parts.push(token);
            proof {
                lemma_token_len_is(rest, end - start);
                assert(rest.take(end - start) =~= text@.subrange(start as int, end as int));
                assert(rest.skip(end - start) =~= text@.skip(end as int));
                assert(parts.deep_view() =~= before.push(token@));
                assert(before.push(token@) + tokens(text@.skip(end as int)) =~= before + (
                seq![token@] + tokens(text@.skip(end as int))));
            }
            i = end;
        }
    }
    assert(tokens(text@.skip(len as int)) =~= Seq::<Seq<char>>::empty());
    parts
}

} // verus!
