//! White space at the ends of a text, as the replies of an ASCII instrument
//! carry it.

use vstd::prelude::*;
use vstd::string::*;

verus! {

/// Whether a character has the Unicode property White_Space.
pub open spec fn is_white_space(c: char) -> bool {
    let n = c as u32;
    ||| 0x09 <= n <= 0x0D
    ||| n == 0x20
    ||| n == 0x85
    ||| n == 0xA0
    ||| n == 0x1680
    ||| 0x2000 <= n <= 0x200A
    ||| n == 0x2028
    ||| n == 0x2029
    ||| n == 0x202F
    ||| n == 0x205F
    ||| n == 0x3000
}

/// How many white-space characters a text begins with.
pub open spec fn leading_space(text: Seq<char>) -> nat
    decreases text.len(),
{
    if text.len() > 0 && is_white_space(text[0]) {
        1 + leading_space(text.drop_first())
    } else {
        0
    }
}

/// How many white-space characters a text ends with.
pub open spec fn trailing_space(text: Seq<char>) -> nat
    decreases text.len(),
{
    if text.len() > 0 && is_white_space(text.last()) {
        1 + trailing_space(text.drop_last())
    } else {
        0
    }
}

/// A text without the white space at its two ends.
pub open spec fn trimmed(text: Seq<char>) -> Seq<char> {
    let rest = text.skip(leading_space(text) as int);
    rest.take(rest.len() - trailing_space(rest))
}

/// A text all of whose first `k` characters are white space, and whose next
/// character is not, begins with exactly `k` of them.
proof fn lemma_leading_space(text: Seq<char>, k: int)
    requires
        0 <= k <= text.len(),
        forall|i: int| 0 <= i < k ==> is_white_space(#[trigger] text[i]),
        k < text.len() ==> !is_white_space(text[k]),
    ensures
        leading_space(text) == k,
    decreases k,
{
    if k > 0 {
        let rest = text.drop_first();
        assert forall|i: int| 0 <= i < k - 1 implies is_white_space(#[trigger] rest[i]) by {
            assert(rest[i] == text[i + 1]);
        }
        if k < text.len() {
            assert(rest[k - 1] == text[k]);
        }
        lemma_leading_space(rest, k - 1);
    }
}

/// A text all of whose last `k` characters are white space, and whose
/// character before them is not, ends with exactly `k` of them.
proof fn lemma_trailing_space(text: Seq<char>, k: int)
    requires
        0 <= k <= text.len(),
        forall|i: int| text.len() - k <= i < text.len() ==> is_white_space(#[trigger] text[i]),
        k < text.len() ==> !is_white_space(text[text.len() - k - 1]),
    ensures
        trailing_space(text) == k,
    decreases k,
{
    if k > 0 {
        let rest = text.drop_last();
        assert forall|i: int| rest.len() - (k - 1) <= i < rest.len() implies is_white_space(
            #[trigger] rest[i],
        ) by {
            assert(rest[i] == text[i]);
        }
        if k < text.len() {
            assert(rest[rest.len() - (k - 1) - 1] == text[text.len() - k - 1]);
        }
        lemma_trailing_space(rest, k - 1);
    }
}

/// Whether a character has the Unicode property White_Space.
pub fn white_space(c: char) -> (b: bool)
    ensures
        b == is_white_space(c),
{
    let n: u32 = c as u32;
    (0x09 <= n && n <= 0x0D) || n == 0x20 || n == 0x85 || n == 0xA0 || n == 0x1680 || (0x2000 <= n && n
        <= 0x200A) || n == 0x2028 || n == 0x2029 || n == 0x202F || n == 0x205F || n == 0x3000
}

/// Removes the white space at the two ends of a text.
pub fn trim(text: &str) -> (out: String)
    ensures
        out@ == trimmed(text@),
{
    let len: usize = text.unicode_len();
    let mut start: usize = 0;
    while start < len && white_space(text.get_char(start))
        invariant
            len == text@.len(),
            start <= len,
            forall|i: int| 0 <= i < start ==> is_white_space(#[trigger] text@[i]),
        decreases len - start,
    {
        start += 1;
    }
    let ghost rest = text@.skip(start as int);
    let mut end: usize = len;
    while end > start && white_space(text.get_char(end - 1))
        invariant
            len == text@.len(),
            start <= end <= len,
            forall|i: int| end <= i < len ==> is_white_space(#[trigger] text@[i]),
        decreases end - start,
    {
        end -= 1;
    }
    proof {
        lemma_leading_space(text@, start as int);
        assert forall|i: int| rest.len() - (len - end) <= i < rest.len() implies is_white_space(
            #[trigger] rest[i],
        ) by {
            assert(rest[i] == text@[i + start]);
        }
        if len - end < rest.len() {
            assert(rest[rest.len() - (len - end) - 1] == text@[end - 1]);
        }
        lemma_trailing_space(rest, len - end);
        assert(text@.subrange(start as int, end as int) =~= rest.take(rest.len() - (len - end)));
    }
    String::from_str(text.substring_char(start, end))
}

/// One hexadecimal digit, in lower case.
pub open spec fn hex_digit_text(digit: int) -> Seq<char> {
    if digit == 0 {
        "0"@
    } else if digit == 1 {
        "1"@
    } else if digit == 2 {
        "2"@
    } else if digit == 3 {
        "3"@
    } else if digit == 4 {
        "4"@
    } else if digit == 5 {
        "5"@
    } else if digit == 6 {
        "6"@
    } else if digit == 7 {
        "7"@
    } else if digit == 8 {
        "8"@
    } else if digit == 9 {
        "9"@
    } else if digit == 10 {
        "a"@
    } else if digit == 11 {
        "b"@
    } else if digit == 12 {
        "c"@
    } else if digit == 13 {
        "d"@
    } else if digit == 14 {
        "e"@
    } else {
        "f"@
    }
}

/// A 16-bit number as four hexadecimal digits, in lower case, with leading
/// zeros.
pub open spec fn hex4_text(value: u16) -> Seq<char> {
    hex_digit_text(value as int / 4096) + hex_digit_text(value as int / 256 % 16) + hex_digit_text(
        value as int / 16 % 16,
    ) + hex_digit_text(value as int % 16)
}

/// One hexadecimal digit, in lower case.
fn hex_digit(digit: u16) -> (text: &'static str)
    requires
        digit < 16,
    ensures
        text@ == hex_digit_text(digit as int),
{
    if digit == 0 {
        "0"
    } else if digit == 1 {
        "1"
    } else if digit == 2 {
        "2"
    } else if digit == 3 {
        "3"
    } else if digit == 4 {
        "4"
    } else if digit == 5 {
        "5"
    } else if digit == 6 {
        "6"
    } else if digit == 7 {
        "7"
    } else if digit == 8 {
        "8"
    } else if digit == 9 {
        "9"
    } else if digit == 10 {
        "a"
    } else if digit == 11 {
        "b"
    } else if digit == 12 {
        "c"
    } else if digit == 13 {
        "d"
    } else if digit == 14 {
        "e"
    } else {
        "f"
    }
}

/// Writes a 16-bit number as four hexadecimal digits, in lower case, with
/// leading zeros.
pub fn hex4(value: u16) -> (text: String)
    ensures
        text@ == hex4_text(value),
{
    String::from_str(hex_digit(value / 4096)).concat(hex_digit(value / 256 % 16)).concat(
        hex_digit(value / 16 % 16),
    ).concat(hex_digit(value % 16))
}

/// Whether a character is a decimal digit.
pub open spec fn is_digit(c: char) -> bool {
    0x30 <= c as u32 <= 0x39
}

/// Whether a text is a decimal number written with two decimals: an optional
/// minus sign, at least one digit, a point, and two digits.
pub open spec fn two_decimals(value: Seq<char>) -> bool {
    let start: int = if value.len() > 0 && value[0] == '-' {
        1
    } else {
        0
    };
    &&& value.len() >= start + 4
    &&& value[value.len() - 3] == '.'
    &&& is_digit(value[value.len() - 2])
    &&& is_digit(value[value.len() - 1])
    &&& forall|i: int| start <= i < value.len() - 3 ==> is_digit(#[trigger] value[i])
}

/// Whether a character is a decimal digit.
fn digit(c: char) -> (b: bool)
    ensures
        b == is_digit(c),
{
    let n: u32 = c as u32;
    0x30 <= n && n <= 0x39
}

/// Tells whether a text is a decimal number written with two decimals.
pub fn is_two_decimals(value: &str) -> (b: bool)
    ensures
        b == two_decimals(value@),
{
    let len: usize = value.unicode_len();
    if len == 0 {
        return false;
    }
    let start: usize = if value.get_char(0) == '-' {
        1
    } else {
        0
    };
    if len < start + 4 {
        return false;
    }
    if value.get_char(len - 3) != '.' || !digit(value.get_char(len - 2)) || !digit(value.get_char(len - 1)) {
        return false;
    }
    let mut i: usize = start;
    while i < len - 3
        invariant
            len == value@.len(),
            len >= start + 4,
            start == (if value@[0] == '-' {
                1int
            } else {
                0int
            }),
            value@[len - 3] == '.',
            is_digit(value@[len - 2]),
            is_digit(value@[len - 1]),
            start <= i <= len - 3,
            forall|k: int| start <= k < i ==> is_digit(#[trigger] value@[k]),
        decreases len - i,
    {
        if !digit(value.get_char(i)) {
            return false;
        }
        i += 1;
    }
    true
}

} // verus!
