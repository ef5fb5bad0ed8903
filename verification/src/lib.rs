//! A multiplatform terminal "digital rain" animation library.
//!
//! The library models falling streams of randomized characters
//! ("raindrops"), one per terminal column, together with the pluggable
//! coloring strategies applied to them and the per-frame bookkeeping of a
//! fixed-framerate render loop.  All color and probability arithmetic is
//! carried out in integer thousandths, so every formula is exact.

use vstd::prelude::*;
use vstd::string::{StrSliceExecFns, StringExecFns};

pub mod animation;
pub mod raindrop;

verus! {

/// Whether the character is an ASCII decimal digit.
pub open spec fn is_dec_digit(c: char) -> bool {
    '0' <= c && c <= '9'
}

/// The numeric value of an ASCII decimal digit.
pub open spec fn digit_value(c: char) -> int {
    c as int - '0' as int
}

/// Whether every character of the sequence is an ASCII decimal digit.
pub open spec fn all_dec_digits(s: Seq<char>) -> bool {
    forall|i: int| 0 <= i < s.len() ==> is_dec_digit(#[trigger] s[i])
}

/// The value of a sequence of decimal digits, most significant first.
pub open spec fn dec_value(s: Seq<char>) -> int
    decreases s.len(),
{
    if s.len() == 0 {
        0
    } else {
        dec_value(s.drop_last()) * 10 + digit_value(s.last())
    }
}

/// The digit run of a framerate argument: the whole string, or what
/// follows one leading plus sign.
pub open spec fn framerate_digits(s: Seq<char>) -> Seq<char> {
    if s.len() > 0 && s[0] == '+' {
        s.subrange(1, s.len() as int)
    } else {
        s
    }
}

/// Whether the string parses as a usize framerate: a non-empty run of
/// decimal digits (after an optional leading plus sign) whose value fits a
/// usize.
pub open spec fn framerate_parses(s: Seq<char>) -> bool {
    &&& framerate_digits(s).len() > 0
    &&& all_dec_digits(framerate_digits(s))
    &&& dec_value(framerate_digits(s)) <= usize::MAX
}

/// A sequence of decimal digits has a nonnegative value.
proof fn lemma_dec_value_nonneg(s: Seq<char>)
    requires
        all_dec_digits(s),
    ensures
        dec_value(s) >= 0,
    decreases s.len(),
{
    if s.len() > 0 {
        lemma_dec_value_nonneg(s.drop_last());
    }
}

/// Extending a run of decimal digits never shrinks its value: every prefix
/// is worth at most the whole run.
proof fn lemma_dec_value_prefix_le(s: Seq<char>, k: int)
    requires
        all_dec_digits(s),
        0 <= k <= s.len(),
    ensures
        dec_value(s.take(k)) <= dec_value(s),
    decreases s.len() - k,
{
    if k < s.len() {
        lemma_dec_value_prefix_le(s, k + 1);
        assert(s.take(k + 1).drop_last() =~= s.take(k));
        lemma_dec_value_nonneg(s.take(k));
    } else {
        assert(s.take(k) =~= s);
    }
}

/// The message rejecting a string that is not a valid framerate integer.
fn invalid_framerate_message(s: &str) -> (message: String)
    ensures
        message@ == "\""@ + s@ + "\" isn't a valid integer"@,
{
    let mut message = String::from_str("\"");
    message.append(s);
    message.append("\" isn't a valid integer");
    proof {
        assert(message@ =~= "\""@ + s@ + "\" isn't a valid integer"@);
    }
    message
}

/// Framerate argument validator: parses the string as a decimal usize (one
/// leading plus sign allowed) and accepts any positive value.  Rejects, with
/// a descriptive message, a string that is not such an integer — empty, a
/// stray character, too large to fit — and the framerate zero.
pub fn framerate_in_range(s: &str) -> (framerate: Result<usize, String>)
    ensures
        match framerate {
            Ok(parsed) => framerate_parses(s@) && parsed == dec_value(framerate_digits(s@))
                && parsed > 0,
            Err(message) => (!framerate_parses(s@) && message@ == "\""@ + s@
                + "\" isn't a valid integer"@) || (framerate_parses(s@) && dec_value(
                framerate_digits(s@),
            ) == 0 && message@ == "framerate cannot be zero"@),
        },
{
    let length = s.unicode_len();
    let start: usize = if length > 0 && s.get_char(0) == '+' {
        1
    } else {
        0
    };
    let ghost digits = framerate_digits(s@);
    if start >= length {
        // no digits at all
        return Err(invalid_framerate_message(s));
    }
    let mut accumulator: usize = 0;
    let mut index = start;
    while index < length
        invariant
            start <= index <= length,
            length == s@.len(),
            start == (if s@.len() > 0 && s@[0] == '+' {
                1int
            } else {
                0int
            }),
            digits == framerate_digits(s@),
            digits.len() == length - start,
            forall|i: int| 0 <= i < index - start ==> is_dec_digit(#[trigger] digits[i]),
            accumulator == dec_value(digits.take(index - start)),
        decreases length - index,
    {
        let c = s.get_char(index);
        let code = c as u32;
        proof {
            assert(digits[index - start] == s@[index as int]);
        }
        if code < 48 || code > 57 {
            return Err(invalid_framerate_message(s));
        }
        let digit = (code - 48) as usize;
        let widened = match accumulator.checked_mul(10) {
            Some(w) => w,
            None => {
                proof {
                    lemma_accumulated_overflow(digits, index - start, usize::MAX as int);
                }
                return Err(invalid_framerate_message(s));
            },
        };
        let extended = match widened.checked_add(digit) {
            Some(e) => e,
            None => {
                proof {
                    lemma_accumulated_overflow(digits, index - start, usize::MAX as int);
                }
                return Err(invalid_framerate_message(s));
            },
        };
        accumulator = extended;
        proof {
            assert(digits.take(index - start + 1).drop_last() =~= digits.take(index - start));
        }
        index = index + 1;
    }
    proof {
        assert(digits.take(length - start) =~= digits);
    }
    if accumulator == 0 {
        Err(String::from_str("framerate cannot be zero"))
    } else {
        Ok(accumulator)
    }
}

/// When the value accumulated over a digit prefix already exceeds the
/// bound after taking in one more digit, the whole run (if it is all
/// digits) exceeds the bound too.
proof fn lemma_accumulated_overflow(digits: Seq<char>, k: int, bound: int)
    requires
        0 <= k < digits.len(),
        forall|i: int| 0 <= i < k ==> is_dec_digit(#[trigger] digits[i]),
        is_dec_digit(digits[k]),
        dec_value(digits.take(k)) * 10 + digit_value(digits[k]) > bound,
    ensures
        all_dec_digits(digits) ==> dec_value(digits) > bound,
{
    if all_dec_digits(digits) {
        assert(digits.take(k + 1).drop_last() =~= digits.take(k));
        assert(dec_value(digits.take(k + 1)) > bound);
        lemma_dec_value_prefix_le(digits, k + 1);
    }
}

} // verus!
