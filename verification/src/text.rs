//! Small verified string helpers shared by the other modules.

use vstd::prelude::*;
use vstd::string::*;

verus! {

/// `str`'s `==` of the standard library: two string slices are equal exactly
/// when they hold the same characters.
pub assume_specification[ <str as PartialEq>::eq ](a: &str, b: &str) -> (same: bool)
    ensures
        same == (a@ == b@),
;

/// Whether `a` and `b` hold the same characters.
pub fn str_eq(a: &str, b: &str) -> (same: bool)
    ensures
        same == (a@ == b@),
{
    *a == *b
}

/// Whether `text` begins with `prefix`.
pub open spec fn spec_starts_with(text: Seq<char>, prefix: Seq<char>) -> bool {
    prefix.len() <= text.len() && text.subrange(0, prefix.len() as int) == prefix
}

/// What is left of `text` once `prefix` is taken off its front, if it is there.
pub open spec fn spec_strip_prefix(text: Seq<char>, prefix: Seq<char>) -> Option<Seq<char>> {
    if spec_starts_with(text, prefix) {
        Some(text.subrange(prefix.len() as int, text.len() as int))
    } else {
        None
    }
}

/// The rest of `text` after `prefix`, or `None` where `text` does not begin
/// with `prefix`.
pub fn strip_prefix<'a>(text: &'a str, prefix: &str) -> (rest: Option<&'a str>)
    ensures
        match rest {
            Some(r) => spec_strip_prefix(text@, prefix@) == Some(r@),
            None => spec_strip_prefix(text@, prefix@) is None,
        },
{
    let text_len = text.unicode_len();
    let prefix_len = prefix.unicode_len();
    if prefix_len > text_len {
        return None;
    }
    let head = text.substring_char(0, prefix_len);
    if str_eq(head, prefix) {
        Some(text.substring_char(prefix_len, text_len))
    } else {
        None
    }
}

/// Whether `needle` occurs somewhere in `text`.
pub open spec fn spec_contains(text: Seq<char>, needle: Seq<char>) -> bool {
    exists|i: int|
        0 <= i && i + needle.len() <= text.len() && #[trigger] text.subrange(
            i,
            i + needle.len(),
        ) == needle
}

/// Whether `needle` occurs somewhere in `text`.
pub fn contains(text: &str, needle: &str) -> (found: bool)
    ensures
        found == spec_contains(text@, needle@),
{
    let text_len = text.unicode_len();
    let needle_len = needle.unicode_len();
    if needle_len > text_len {
        return false;
    }
    let last = text_len - needle_len;
    let mut i: usize = 0;
    while i < last
        invariant
            text_len == text@.len(),
            needle_len == needle@.len(),
            last == text_len - needle_len,
            i <= last,
            forall|k: int| 0 <= k < i ==> #[trigger] text@.subrange(k, k + needle_len) != needle@,
        decreases last - i,
    {
        if str_eq(text.substring_char(i, i + needle_len), needle) {
            return true;
        }
        i += 1;
    }
    let found = str_eq(text.substring_char(last, text_len), needle);
    proof {
        assert(text@.subrange(last as int, text_len as int) == text@.subrange(
            last as int,
            last + needle_len,
        ));
        if !found {
            assert forall|k: int| 0 <= k && k + needle@.len() <= text@.len() implies (
            #[trigger] text@.subrange(k, k + needle@.len())) != needle@ by {
                if k < last {
                } else {
                    assert(k == last);
                }
            }
        }
    }
    found
}

/// The position of the last `.` in `name`, or -1 where it holds none.
pub open spec fn last_dot(name: Seq<char>) -> int
    decreases name.len(),
{
    if name.len() == 0 {
        -1
    } else if name.last() == '.' {
        name.len() - 1
    } else {
        last_dot(name.drop_last())
    }
}

/// What follows the last `.` of `name`; all of `name` where it holds none.
pub open spec fn spec_extension(name: Seq<char>) -> Seq<char> {
    name.subrange(last_dot(name) + 1, name.len() as int)
}

/// What follows the last `.` of `name`; all of `name` where it holds none.
pub fn extension<'a>(name: &'a str) -> (ext: &'a str)
    ensures
        ext@ == spec_extension(name@),
{
    let len = name.unicode_len();
    let mut i: usize = len;
    assert(name@.take(len as int) =~= name@);
    while i > 0 && name.get_char(i - 1) != '.'
        invariant
            len == name@.len(),
            i <= len,
            last_dot(name@) == last_dot(name@.take(i as int)),
        decreases i,
    {
        assert(name@.take(i as int).drop_last() =~= name@.take(i as int - 1));
        i -= 1;
    }
    proof {
        if i > 0 {
            assert(name@.take(i as int).last() == '.');
        }
        assert(last_dot(name@.take(i as int)) == i as int - 1);
    }
    name.substring_char(i, len)
}

/// The decimal digit for a value below ten.
pub open spec fn decimal_digit(value: int) -> char
    recommends
        0 <= value < 10,
{
    seq!['0', '1', '2', '3', '4', '5', '6', '7', '8', '9'][value]
}

/// A natural number in decimal, without leading zeros.
pub open spec fn decimal_of_nat(n: nat) -> Seq<char>
    decreases n,
{
    if n < 10 {
        seq![decimal_digit(n as int)]
    } else {
        decimal_of_nat(n / 10).push(decimal_digit((n % 10) as int))
    }
}

/// An integer in decimal, with a minus sign where it is negative.
pub open spec fn decimal_of_int(n: int) -> Seq<char> {
    if n < 0 {
        seq!['-'] + decimal_of_nat((-n) as nat)
    } else {
        decimal_of_nat(n as nat)
    }
}

fn decimal_digit_str(value: u64) -> (digit: &'static str)
    requires
        value < 10,
    ensures
        digit@ == seq![decimal_digit(value as int)],
{
    proof {
        reveal_strlit("0");
        reveal_strlit("1");
        reveal_strlit("2");
        reveal_strlit("3");
        reveal_strlit("4");
        reveal_strlit("5");
        reveal_strlit("6");
        reveal_strlit("7");
        reveal_strlit("8");
        reveal_strlit("9");
    }
    let digit = match value {
        0 => "0",
        1 => "1",
        2 => "2",
        3 => "3",
        4 => "4",
        5 => "5",
        6 => "6",
        7 => "7",
        8 => "8",
        _ => "9",
    };
    assert(digit@ =~= seq![decimal_digit(value as int)]);
    digit
}

fn append_decimal(out: &mut String, n: u64)
    ensures
        final(out)@ == old(out)@ + decimal_of_nat(n as nat),
    decreases n,
{
    if n >= 10 {
        append_decimal(out, n / 10);
    }
    out.append(decimal_digit_str(n % 10));
    assert(out@ =~= old(out)@ + decimal_of_nat(n as nat));
}

/// Writes `n` in decimal.
pub fn i32_to_decimal(n: i32) -> (text: String)
    ensures
        text@ == decimal_of_int(n as int),
{
    let mut text = String::new();
    if n < 0 {
        proof {
            reveal_strlit("-");
        }
        text.append("-");
        assert(text@ =~= seq!['-']);
        let magnitude: u64 = (-(n as i64)) as u64;
        append_decimal(&mut text, magnitude);
    } else {
        append_decimal(&mut text, n as u64);
        assert(text@ =~= decimal_of_nat(n as nat));
    }
    text
}

} // verus!
