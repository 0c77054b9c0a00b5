use vstd::prelude::*;

use crate::config::Difficulty;
use crate::config::GameConfig;
use crate::error::GameError;

verus! {

/// An ASCII decimal digit.
pub open spec fn is_ascii_digit(c: char) -> bool {
    '0' as int <= c as int && c as int <= '9' as int
}

/// The numeric value of an ASCII decimal digit.
pub open spec fn digit_value(c: char) -> int {
    c as int - '0' as int
}

/// Every character of the sequence is an ASCII decimal digit.
pub open spec fn all_digits(s: Seq<char>) -> bool {
    forall|i: int| 0 <= i < s.len() ==> is_ascii_digit(#[trigger] s[i])
}

/// The value of a sequence of decimal digits, most significant first.
pub open spec fn digits_value(s: Seq<char>) -> int
    decreases s.len(),
{
    if s.len() == 0 {
        0
    } else {
        digits_value(s.drop_last()) * 10 + digit_value(s.last())
    }
}

/// The digit portion of a numeral: a numeral may begin with one optional
/// `+` sign, which carries no value.
pub open spec fn digit_part(s: Seq<char>) -> Seq<char> {
    if s.len() > 0 && s[0] == '+' {
        s.drop_first()
    } else {
        s
    }
}

/// Whether a line is a strict base-10 `u32` numeral: after the optional
/// leading `+`, at least one character, all of them ASCII decimal digits
/// (so full-width or localized digit forms fail), and a value that fits
/// in a `u32`.
pub open spec fn is_u32_numeral(s: Seq<char>) -> bool {
    let d = digit_part(s);
    d.len() > 0 && all_digits(d) && digits_value(d) <= u32::MAX
}

/// The value of a numeral.
pub open spec fn numeral_value(s: Seq<char>) -> int {
    digits_value(digit_part(s))
}

/// A sequence of digits has a non-negative value.
proof fn lemma_digits_value_nonneg(s: Seq<char>)
    requires
        all_digits(s),
    ensures
        digits_value(s) >= 0,
    decreases s.len(),
{
    if s.len() > 0 {
        assert(all_digits(s.drop_last()));
        lemma_digits_value_nonneg(s.drop_last());
    }
}

/// Extending a sequence of digits on the right never decreases its value.
proof fn lemma_digits_value_prefix_le(s: Seq<char>, i: int)
    requires
        all_digits(s),
        0 <= i <= s.len(),
    ensures
        digits_value(s.subrange(0, i)) <= digits_value(s),
    decreases s.len() - i,
{
    if i == s.len() {
        assert(s.subrange(0, i) =~= s);
    } else {
        lemma_digits_value_prefix_le(s, i + 1);
        let p = s.subrange(0, i + 1);
        assert(p.drop_last() =~= s.subrange(0, i));
        assert(all_digits(s.subrange(0, i)));
        lemma_digits_value_nonneg(s.subrange(0, i));
        assert(digits_value(s.subrange(0, i)) <= digits_value(p));
    }
}

/// Parse a line as a strict base-10 `u32`: an optional leading `+`, then
/// ASCII decimal digits only, with a value that fits in a `u32`. Anything
/// else — an empty line, a sign alone, any other character, a fractional
/// or negative number, or an overflowing value — yields `None`.
pub fn parse_u32(s: &str) -> (r: Option<u32>)
    ensures
        (match r {
            Some(v) => is_u32_numeral(s@) && v == numeral_value(s@),
            None => !is_u32_numeral(s@),
        }),
{
    let n = s.unicode_len();
    let start: usize = if n > 0 && s.get_char(0) == '+' {
        1
    } else {
        0
    };
    let ghost d = digit_part(s@);
    proof {
        assert(d =~= s@.subrange(start as int, n as int));
    }
    if start == n {
        return None;
    }
    let mut value: u64 = 0;
    let mut i: usize = start;
    while i < n
        invariant
            start <= i <= n,
            n == s@.len(),
            d == digit_part(s@),
            d =~= s@.subrange(start as int, n as int),
            all_digits(s@.subrange(start as int, i as int)),
            value == digits_value(s@.subrange(start as int, i as int)),
            value <= u32::MAX,
        decreases n - i,
    {
        let c = s.get_char(i);
        let cv = c as u32;
        if cv < '0' as u32 || cv > '9' as u32 {
            proof {
                assert(d[i - start] == s@[i as int]);
                assert(!is_ascii_digit(s@[i as int]));
            }
            return None;
        }
        let dig: u64 = (cv - '0' as u32) as u64;
        let next: u64 = value * 10 + dig;
        let ghost prefix = s@.subrange(start as int, i as int);
        let ghost prefix1 = s@.subrange(start as int, i + 1);
        proof {
            assert(prefix1.drop_last() =~= prefix);
            assert(prefix1.last() == s@[i as int]);
            assert(digits_value(prefix1) == digits_value(prefix) * 10 + digit_value(
                s@[i as int],
            ));
            assert(all_digits(prefix1));
        }
        if next > u32::MAX as u64 {
            proof {
                let ghost dprefix = d.subrange(0, i + 1 - start);
                assert(dprefix =~= prefix1);
                if all_digits(d) {
                    lemma_digits_value_prefix_le(d, i + 1 - start);
                    assert(digits_value(d) > u32::MAX);
                }
            }
            return None;
        }
        value = next;
        i = i + 1;
    }
    proof {
        assert(s@.subrange(start as int, i as int) =~= d);
    }
    Some(value as u32)
}

/// Validate a submitted line as a guess under a configuration: parse it
/// strictly as a base-10 integer, then check range membership. A line
/// that is not a numeral gives `ParseError`; a numeral outside
/// `[config.min, config.max]` gives `OutOfRange` with those bounds; an
/// in-range numeral gives its value. Never `IoError`.
pub fn parse_guess(raw: &str, config: &GameConfig) -> (r: Result<u32, GameError>)
    ensures
        (match r {
            Ok(v) => is_u32_numeral(raw@) && v == numeral_value(raw@) && config.min <= v
                <= config.max,
            Err(e) => (match e {
                GameError::ParseError => !is_u32_numeral(raw@),
                GameError::OutOfRange { min, max } => min == config.min && max == config.max
                    && is_u32_numeral(raw@) && !(config.min <= numeral_value(raw@)
                    <= config.max),
                GameError::IoError => false,
            }),
        }),
{
    match parse_u32(raw) {
        Some(v) => {
            if config.is_valid_range(v) {
                Ok(v)
            } else {
                Err(GameError::OutOfRange { min: config.min, max: config.max })
            }
        },
        None => Err(GameError::ParseError),
    }
}

/// The difficulty a menu line selects: exactly `"1"`, `"2"` or `"3"`.
pub open spec fn difficulty_choice(s: Seq<char>) -> Option<Difficulty> {
    if s.len() == 1 && s[0] == '1' {
        Some(Difficulty::Easy)
    } else if s.len() == 1 && s[0] == '2' {
        Some(Difficulty::Normal)
    } else if s.len() == 1 && s[0] == '3' {
        Some(Difficulty::Hard)
    } else {
        None
    }
}

/// Map a menu line to a difficulty: `"1"` is Easy, `"2"` Normal,
/// `"3"` Hard; any other line, empty ones included, selects nothing.
pub fn parse_difficulty(raw: &str) -> (r: Option<Difficulty>)
    ensures
        r == difficulty_choice(raw@),
{
    let n = raw.unicode_len();
    if n != 1 {
        return None;
    }
    let c = raw.get_char(0);
    if c == '1' {
        Some(Difficulty::Easy)
    } else if c == '2' {
        Some(Difficulty::Normal)
    } else if c == '3' {
        Some(Difficulty::Hard)
    } else {
        None
    }
}

/// The character matches a lower-case ASCII letter, ignoring case.
pub open spec fn eq_ignore_case(c: char, lo: char) -> bool {
    c == lo || c as int == lo as int - 32
}

/// The answer a retry line gives: case-insensitive `"y"`/`"yes"` accept,
/// case-insensitive `"n"`/`"no"` decline, anything else answers nothing.
pub open spec fn retry_choice(s: Seq<char>) -> Option<bool> {
    if (s.len() == 1 && eq_ignore_case(s[0], 'y')) || (s.len() == 3 && eq_ignore_case(s[0], 'y')
        && eq_ignore_case(s[1], 'e') && eq_ignore_case(s[2], 's')) {
        Some(true)
    } else if (s.len() == 1 && eq_ignore_case(s[0], 'n')) || (s.len() == 2 && eq_ignore_case(
        s[0],
        'n',
    ) && eq_ignore_case(s[1], 'o')) {
        Some(false)
    } else {
        None
    }
}

/// Whether one character of the line matches a given lower-case letter,
/// ignoring ASCII case.
fn char_eq_ignore_case(raw: &str, i: usize, lo: char, up: char) -> (r: bool)
    requires
        i < raw@.len(),
        up as int == lo as int - 32,
    ensures
        r == eq_ignore_case(raw@[i as int], lo),
{
    let c = raw.get_char(i);
    c == lo || c == up
}

/// Map a retry line to an answer: case-insensitive `"y"` or `"yes"` means
/// play again, `"n"` or `"no"` means stop, and any other line means the
/// prompt must be repeated.
pub fn parse_retry(raw: &str) -> (r: Option<bool>)
    ensures
        r == retry_choice(raw@),
{
    let n = raw.unicode_len();
    if n == 1 {
        if char_eq_ignore_case(raw, 0, 'y', 'Y') {
            Some(true)
        } else if char_eq_ignore_case(raw, 0, 'n', 'N') {
            Some(false)
        } else {
            None
        }
    } else if n == 2 {
        if char_eq_ignore_case(raw, 0, 'n', 'N') && char_eq_ignore_case(raw, 1, 'o', 'O') {
            Some(false)
        } else {
            None
        }
    } else if n == 3 {
        if char_eq_ignore_case(raw, 0, 'y', 'Y') && char_eq_ignore_case(raw, 1, 'e', 'E')
            && char_eq_ignore_case(raw, 2, 's', 'S') {
            Some(true)
        } else {
            None
        }
    } else {
        None
    }
}

} // verus!
