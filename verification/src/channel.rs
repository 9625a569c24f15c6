//! Parsing a color-channel edit field.
//!
//! An edit field holds a decimal number of 0..=255 units, e.g. `"128"` or
//! `"12.5"`. The text is parsed exactly: an optional leading minus sign, then
//! digits with at most one decimal point and at least one digit. A malformed
//! text yields `None`; a well-formed one yields the channel on the
//! `0 ..= CHANNEL_ONE` grid, clamped into range, with fractional digits past
//! the third (a resolution of 1/1000 of a 0..=255 unit) ignored.

use vstd::prelude::*;
use crate::theme::CHANNEL_ONE;

verus! {

/// `c` is an ASCII decimal digit.
pub open spec fn is_digit(c: char) -> bool {
    48 <= c as u32 && c as u32 <= 57
}

/// The numeric value of a digit character.
pub open spec fn digit_val(c: char) -> int {
    c as u32 - 48
}

/// How many characters of `s` are the decimal point.
pub open spec fn count_dots(s: Seq<char>) -> nat
    decreases s.len(),
{
    if s.len() == 0 {
        0
    } else {
        count_dots(s.drop_last()) + (if s.last() == '.' { 1nat } else { 0nat })
    }
}

/// How many characters of `s` are digits.
pub open spec fn count_digits(s: Seq<char>) -> nat
    decreases s.len(),
{
    if s.len() == 0 {
        0
    } else {
        count_digits(s.drop_last()) + (if is_digit(s.last()) { 1nat } else { 0nat })
    }
}

/// The index of the last decimal point of `s`, or -1 if there is none.
pub open spec fn last_dot(s: Seq<char>) -> int
    decreases s.len(),
{
    if s.len() == 0 {
        -1
    } else if s.last() == '.' {
        s.len() - 1
    } else {
        last_dot(s.drop_last())
    }
}

/// The value of a digit string read as a decimal integer.
pub open spec fn digits_value(s: Seq<char>) -> int
    decreases s.len(),
{
    if s.len() == 0 {
        0
    } else {
        digits_value(s.drop_last()) * 10 + digit_val(s.last())
    }
}

/// The value of the fractional digit string `s` in thousandths, truncated
/// after the third digit.
pub open spec fn frac_milli(s: Seq<char>) -> int {
    (if s.len() > 0 { 100 * digit_val(s[0]) } else { 0 })
        + (if s.len() > 1 { 10 * digit_val(s[1]) } else { 0 })
        + (if s.len() > 2 { digit_val(s[2]) } else { 0 })
}

/// `s` without its leading minus sign, if any.
pub open spec fn number_body(s: Seq<char>) -> Seq<char> {
    if s.len() > 0 && s[0] == '-' {
        s.subrange(1, s.len() as int)
    } else {
        s
    }
}

/// `s` is a well-formed decimal number: an optional minus sign, then digits
/// with at most one decimal point and at least one digit.
pub open spec fn is_number(s: Seq<char>) -> bool {
    let b = number_body(s);
    b.len() > 0
        && (forall|i: int| 0 <= i < b.len() ==> is_digit(b[i]) || b[i] == '.')
        && count_dots(b) <= 1
        && count_digits(b) >= 1
}

/// The magnitude of the number body `b` in thousandths, truncated after the
/// third fractional digit.
pub open spec fn number_milli(b: Seq<char>) -> int {
    let k = last_dot(b);
    if k == -1 {
        digits_value(b) * 1000
    } else {
        digits_value(b.subrange(0, k)) * 1000 + frac_milli(b.subrange(k + 1, b.len() as int))
    }
}

/// The channel value an edit-field text stands for: `None` if the text is
/// not a number; otherwise its value clamped into 0..=255 units and put on
/// the `0 ..= CHANNEL_ONE` grid.
pub open spec fn channel_of_text(s: Seq<char>) -> Option<u32> {
    if !is_number(s) {
        None
    } else if s[0] == '-' {
        Some(0u32)
    } else {
        let m = number_milli(s);
        if m > CHANNEL_ONE {
            Some(CHANNEL_ONE)
        } else if m < 0 {
            Some(0u32)
        } else {
            Some(m as u32)
        }
    }
}

/// A parsed channel value is never above full intensity.
pub proof fn lemma_channel_in_range(s: Seq<char>)
    ensures
        channel_of_text(s) matches Some(v) ==> v <= CHANNEL_ONE,
{
}

/// A decimal point anywhere in `s` is counted by `count_dots`.
proof fn lemma_dot_counted(s: Seq<char>, j: int)
    requires
        0 <= j < s.len(),
        s[j] == '.',
    ensures
        count_dots(s) >= 1,
    decreases s.len(),
{
    if j < s.len() - 1 {
        lemma_dot_counted(s.drop_last(), j);
    }
}

/// With at most one decimal point, a decimal point at `k` is the last one.
proof fn lemma_last_dot_unique(s: Seq<char>, k: int)
    requires
        count_dots(s) <= 1,
        0 <= k < s.len(),
        s[k] == '.',
    ensures
        last_dot(s) == k,
    decreases s.len(),
{
    if s.last() == '.' {
        if k < s.len() - 1 {
            lemma_dot_counted(s.drop_last(), k);
            assert(false);
        }
    } else {
        lemma_last_dot_unique(s.drop_last(), k);
    }
}

/// Without a decimal point there is no last one.
proof fn lemma_no_dot_no_last(s: Seq<char>)
    requires
        count_dots(s) == 0,
    ensures
        last_dot(s) == -1,
    decreases s.len(),
{
    if s.len() > 0 {
        lemma_no_dot_no_last(s.drop_last());
    }
}

/// Parse an edit-field text into a channel value on the
/// `0 ..= CHANNEL_ONE` grid, or `None` if the text is not a number.
pub fn parse_channel(text: &Vec<char>) -> (r: Option<u32>)
    ensures
        r == channel_of_text(text@),
{
    let len = text.len();
    if len == 0 {
        return None;
    }
    let neg = text[0] == '-';
    let start: usize = if neg { 1 } else { 0 };
    let ghost b = number_body(text@);
    proof {
        assert(b =~= text@.subrange(start as int, len as int));
    }

    // Scan the body: every character must be a digit or the single decimal
    // point; remember where the point stands and how many digits there are.
    let mut i: usize = start;
    let mut dot_idx: Option<usize> = None;
    let mut ndigits: usize = 0;
    while i < len
        invariant
            start <= i <= len,
            len == text@.len(),
            start <= 1,
            b == number_body(text@),
            b == text@.subrange(start as int, len as int),
            forall|j: int| 0 <= j < i - start ==> is_digit(b[j]) || b[j] == '.',
            match dot_idx {
                Some(k) => start <= k < i && b[k - start] == '.'
                    && count_dots(b.subrange(0, i - start)) == 1
                    && (forall|j: int| 0 <= j < i - start && j != k - start ==> b[j] != '.'),
                None => count_dots(b.subrange(0, i - start)) == 0
                    && (forall|j: int| 0 <= j < i - start ==> b[j] != '.'),
            },
            ndigits == count_digits(b.subrange(0, i - start)),
            ndigits <= i - start,
        decreases len - i,
    {
        let c = text[i];
        let u = c as u32;
        proof {
            assert(b.subrange(0, i + 1 - start as int).drop_last() =~= b.subrange(
                0,
                i - start as int,
            ));
        }
        if c == '.' {
            match dot_idx {
                Some(k) => {
                    proof {
                        // Two distinct decimal points: the text is not a number.
                        lemma_two_dots(b, k - start as int, i - start as int);
                    }
                    return None;
                },
                None => {
                    dot_idx = Some(i);
                },
            }
        } else if 48 <= u && u <= 57 {
            ndigits = ndigits + 1;
        } else {
            proof {
                assert(!(is_digit(b[i - start]) || b[i - start] == '.'));
            }
            return None;
        }
        i = i + 1;
    }
    proof {
        assert(b.subrange(0, (len - start) as int) =~= b);
    }
    if ndigits == 0 {
        return None;
    }
    assert(is_number(text@));
    if neg {
        return Some(0);
    }

    // The integer part runs up to the decimal point (or the end). Cap the
    // accumulator at 256: any such value already clamps to full intensity.
    let int_end: usize = match dot_idx {
        Some(k) => k,
        None => len,
    };
    proof {
        match dot_idx {
            Some(k) => { lemma_last_dot_unique(b, k - start); },
            None => { lemma_no_dot_no_last(b); },
        }
        assert forall|p: int| 0 <= p < int_end - start implies is_digit(b[p]) by {
            assert(is_digit(b[p]) || b[p] == '.');
        }
    }
    let ghost int_part = b.subrange(0, int_end - start as int);
    let mut acc: u32 = 0;
    let mut j: usize = start;
    while j < int_end
        invariant
            start <= j <= int_end <= len,
            len == text@.len(),
            start <= 1,
            b == text@.subrange(start as int, len as int),
            int_part == b.subrange(0, int_end - start as int),
            forall|p: int| 0 <= p < int_end - start ==> is_digit(b[p]),
            acc <= 256,
            acc <= 255 ==> acc == digits_value(int_part.subrange(0, j - start as int)),
            acc == 256 ==> digits_value(int_part.subrange(0, j - start as int)) > 255,
        decreases int_end - j,
    {
        proof {
            assert(is_digit(b[j - start]));
            assert(b[j - start] == text@[j as int]);
            assert(int_part.subrange(0, j + 1 - start as int).drop_last() =~= int_part.subrange(
                0,
                j - start as int,
            ));
            assert(int_part[j - start] == b[j - start]);
        }
        let d = text[j] as u32 - 48;
        if acc <= 255 {
            let nv = acc * 10 + d;
            acc = if nv > 255 { 256 } else { nv };
        }
        j = j + 1;
    }
    proof {
        assert(int_part.subrange(0, (int_end - start) as int) =~= int_part);
    }

    // Up to three fractional digits, in thousandths.
    let mut frac: u32 = 0;
    if let Some(k) = dot_idx {
        let ghost fpart = b.subrange(k - start + 1, b.len() as int);
        if k + 1 < len {
            proof {
                assert(fpart[0] == b[k - start + 1]);
                assert(is_digit(b[k - start + 1]));
                assert(b[k - start + 1] == text@[k + 1]);
            }
            frac = frac + 100 * (text[k + 1] as u32 - 48);
            if k + 2 < len {
                proof {
                    assert(fpart[1] == b[k - start + 2]);
                    assert(is_digit(b[k - start + 2]));
                    assert(b[k - start + 2] == text@[k + 2]);
                }
                frac = frac + 10 * (text[k + 2] as u32 - 48);
                if k + 3 < len {
                    proof {
                        assert(fpart[2] == b[k - start + 3]);
                        assert(is_digit(b[k - start + 3]));
                        assert(b[k - start + 3] == text@[k + 3]);
                    }
                    frac = frac + (text[k + 3] as u32 - 48);
                }
            }
        }
        proof {
            assert(frac == frac_milli(fpart));
        }
    }

    let milli = acc * 1000 + frac;
    let r = if milli > CHANNEL_ONE {
        CHANNEL_ONE
    } else {
        milli
    };
    Some(r)
}

/// Two decimal points at distinct positions are both counted.
proof fn lemma_two_dots(s: Seq<char>, j: int, k: int)
    requires
        0 <= j < k < s.len(),
        s[j] == '.',
        s[k] == '.',
    ensures
        count_dots(s) >= 2,
    decreases s.len(),
{
    if k == s.len() - 1 {
        lemma_dot_counted(s.drop_last(), j);
    } else {
        lemma_two_dots(s.drop_last(), j, k);
    }
}

} // verus!
