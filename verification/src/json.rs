//! The wire format: a minimal JSON reader shared by the executor, the tool
//! adapters and the manifest model. A document is one JSON object; members
//! are scanned into key/value-span form, and typed fields are read out of
//! the spans. Each executable parser implements its specification function
//! exactly, so callers' contracts compose through them.
//!
//! Not covered by this reader: `\u` escapes in strings (rejected), and
//! numbers other than unsigned decimal integers (skipped where the field is
//! ignored, rejected where an integer is expected).

use vstd::prelude::*;
use crate::strutil::{digit_char, u64_digits};

verus! {

pub open spec fn is_ws(c: char) -> bool {
    c == ' ' || c == '\t' || c == '\n' || c == '\r'
}

pub open spec fn is_digit(c: char) -> bool {
    '0' <= c && c <= '9'
}

/// A character that may continue a JSON number (skipped, never decoded).
pub open spec fn is_number_char(c: char) -> bool {
    is_digit(c) || c == '-' || c == '+' || c == '.' || c == 'e' || c == 'E'
}

pub open spec fn digit_val(c: char) -> u64 {
    if c == '0' {
        0
    } else if c == '1' {
        1
    } else if c == '2' {
        2
    } else if c == '3' {
        3
    } else if c == '4' {
        4
    } else if c == '5' {
        5
    } else if c == '6' {
        6
    } else if c == '7' {
        7
    } else if c == '8' {
        8
    } else {
        9
    }
}

/// The character an escape sequence `\c` denotes, if `c` is a supported
/// escape.
pub open spec fn unescape_char(c: char) -> Option<char> {
    if c == '"' {
        Some('"')
    } else if c == '\\' {
        Some('\\')
    } else if c == '/' {
        Some('/')
    } else if c == 'n' {
        Some('\n')
    } else if c == 't' {
        Some('\t')
    } else if c == 'r' {
        Some('\r')
    } else if c == 'b' {
        Some('\u{8}')
    } else if c == 'f' {
        Some('\u{c}')
    } else {
        None
    }
}

/// Whether `c` is a hexadecimal digit, upper or lower case.
pub open spec fn is_hex(c: char) -> bool {
    is_digit(c) || ('a' <= c && c <= 'f') || ('A' <= c && c <= 'F')
}

/// The value of a hexadecimal digit.
pub open spec fn hex_val(c: char) -> u32 {
    if is_digit(c) {
        digit_val(c) as u32
    } else if c == 'a' || c == 'A' {
        10
    } else if c == 'b' || c == 'B' {
        11
    } else if c == 'c' || c == 'C' {
        12
    } else if c == 'd' || c == 'D' {
        13
    } else if c == 'e' || c == 'E' {
        14
    } else {
        15
    }
}

/// The lower-case hexadecimal digit character for a value below sixteen.
pub open spec fn hex_digit_char(d: u32) -> char {
    if d < 10 {
        digit_char(d as u64)
    } else if d == 10 {
        'a'
    } else if d == 11 {
        'b'
    } else if d == 12 {
        'c'
    } else if d == 13 {
        'd'
    } else if d == 14 {
        'e'
    } else {
        'f'
    }
}

/// A Unicode scalar value: what `char` can hold.
pub open spec fn is_scalar_value(code: u32) -> bool {
    code < 0xD800 || (0xE000 <= code && code <= 0x10FFFF)
}

/// The character with the given scalar value.
pub open spec fn char_of(code: u32) -> char {
    code as char
}

/// `char_of` recovers exactly the character a scalar value came from.
pub proof fn lemma_char_of(c: char)
    ensures
        char_of(c as u32) == c,
{
}

/// Relies on std's char::from_u32: `Some` exactly for Unicode scalar
/// values (not a surrogate, at most 0x10FFFF), returning the character
/// with that value.
#[verifier::external_body]
fn char_from_u32(code: u32) -> (r: Option<char>)
    ensures
        r is Some <==> is_scalar_value(code),
        (r matches Some(c) ==> c as u32 == code),
{
    char::from_u32(code)
}

pub open spec fn spec_skip_ws(s: Seq<char>, i: int) -> int
    decreases s.len() - i,
{
    if 0 <= i < s.len() && is_ws(s[i]) {
        spec_skip_ws(s, i + 1)
    } else {
        i
    }
}

pub fn skip_ws(s: &Vec<char>, i: usize) -> (r: usize)
    requires
        i <= s.len(),
    ensures
        r == spec_skip_ws(s@, i as int),
        i <= r <= s.len(),
    decreases s.len() - i,
{
    if i < s.len() {
        let c = s[i];
        if c == ' ' || c == '\t' || c == '\n' || c == '\r' {
            return skip_ws(s, i + 1);
        }
    }
    i
}

/// Four hexadecimal digits standing at `i`, as a number.
pub open spec fn spec_hex4(s: Seq<char>, i: int) -> Option<int> {
    if 0 <= i && i + 4 <= s.len() && is_hex(s[i]) && is_hex(s[i + 1]) && is_hex(s[i + 2])
        && is_hex(s[i + 3]) {
        Some(
            hex_val(s[i]) * 0x1000 + hex_val(s[i + 1]) * 0x100 + hex_val(s[i + 2]) * 0x10
                + hex_val(s[i + 3]),
        )
    } else {
        None
    }
}

/// A `\u` escape body standing at `i`, just after the `u`: four hex
/// digits, or a surrogate pair written as two such escapes. Yields the
/// character and how many characters were read; a lone surrogate is
/// malformed.
pub open spec fn spec_unicode_escape(s: Seq<char>, i: int) -> Option<(char, nat)> {
    match spec_hex4(s, i) {
        Some(hi) => {
            if 0xD800 <= hi < 0xDC00 {
                if i + 6 <= s.len() && s[i + 4] == '\\' && s[i + 5] == 'u' {
                    match spec_hex4(s, i + 6) {
                        Some(lo) => if 0xDC00 <= lo < 0xE000 {
                            Some(
                                (
                                    char_of(
                                        (0x10000 + (hi - 0xD800) * 0x400 + (lo - 0xDC00)) as u32,
                                    ),
                                    10 as nat,
                                ),
                            )
                        } else {
                            None
                        },
                        None => None,
                    }
                } else {
                    None
                }
            } else if 0xDC00 <= hi < 0xE000 {
                None
            } else {
                Some((char_of(hi as u32), 4 as nat))
            }
        },
        None => None,
    }
}

/// Scans a string body from just after the opening quote, unescaping as it
/// goes; yields the decoded characters and the position after the closing
/// quote.
pub open spec fn spec_string_body(s: Seq<char>, i: int, acc: Seq<char>) -> Option<(Seq<char>, int)>
    decreases s.len() - i,
{
    if i < 0 || i >= s.len() {
        None
    } else if s[i] == '"' {
        Some((acc, i + 1))
    } else if s[i] == '\\' {
        if i + 1 >= s.len() {
            None
        } else if s[i + 1] == 'u' {
            match spec_unicode_escape(s, i + 2) {
                Some((c, n)) => if i + 2 + n <= s.len() {
                    spec_string_body(s, i + 2 + n, acc.push(c))
                } else {
                    None
                },
                None => None,
            }
        } else {
            match unescape_char(s[i + 1]) {
                Some(e) => spec_string_body(s, i + 2, acc.push(e)),
                None => None,
            }
        }
    } else {
        spec_string_body(s, i + 1, acc.push(s[i]))
    }
}

fn hex_digit(c: char) -> (r: Option<u32>)
    ensures
        (match r {
            Some(v) => is_hex(c) && v == hex_val(c) && v < 16,
            None => !is_hex(c),
        }),
{
    if c == '0' {
        Some(0)
    } else if c == '1' {
        Some(1)
    } else if c == '2' {
        Some(2)
    } else if c == '3' {
        Some(3)
    } else if c == '4' {
        Some(4)
    } else if c == '5' {
        Some(5)
    } else if c == '6' {
        Some(6)
    } else if c == '7' {
        Some(7)
    } else if c == '8' {
        Some(8)
    } else if c == '9' {
        Some(9)
    } else if c == 'a' || c == 'A' {
        Some(10)
    } else if c == 'b' || c == 'B' {
        Some(11)
    } else if c == 'c' || c == 'C' {
        Some(12)
    } else if c == 'd' || c == 'D' {
        Some(13)
    } else if c == 'e' || c == 'E' {
        Some(14)
    } else if c == 'f' || c == 'F' {
        Some(15)
    } else {
        None
    }
}

fn hex4(s: &Vec<char>, i: usize) -> (r: Option<u32>)
    requires
        i <= s.len(),
    ensures
        (match r {
            None => spec_hex4(s@, i as int) is None,
            Some(v) => spec_hex4(s@, i as int) == Some(v as int) && v < 0x10000,
        }),
{
    if i < s.len() && s.len() - i >= 4 {
        match (hex_digit(s[i]), hex_digit(s[i + 1]), hex_digit(s[i + 2]), hex_digit(s[i + 3])) {
            (Some(a), Some(b), Some(c), Some(d)) => Some(a * 0x1000 + b * 0x100 + c * 0x10 + d),
            _ => None,
        }
    } else {
        None
    }
}

fn unicode_escape(s: &Vec<char>, i: usize) -> (r: Option<(char, usize)>)
    requires
        i <= s.len(),
    ensures
        (match r {
            None => spec_unicode_escape(s@, i as int) is None,
            Some((c, n)) => spec_unicode_escape(s@, i as int) == Some((c, n as nat)),
        }),
{
    match hex4(s, i) {
        Some(hi) => {
            if 0xD800 <= hi && hi < 0xDC00 {
                if s.len() - i >= 6 && s[i + 4] == '\\' && s[i + 5] == 'u' {
                    match hex4(s, i + 6) {
                        Some(lo) => {
                            if 0xDC00 <= lo && lo < 0xE000 {
                                let code: u32 = 0x10000 + (hi - 0xD800) * 0x400 + (lo - 0xDC00);
                                match char_from_u32(code) {
                                    Some(c) => {
                                        proof {
                                            lemma_char_of(c);
                                        }
                                        Some((c, 10))
                                    },
                                    None => None,
                                }
                            } else {
                                None
                            }
                        },
                        None => None,
                    }
                } else {
                    None
                }
            } else if 0xDC00 <= hi && hi < 0xE000 {
                None
            } else {
                match char_from_u32(hi) {
                    Some(c) => {
                        proof {
                            lemma_char_of(c);
                        }
                        Some((c, 4))
                    },
                    None => None,
                }
            }
        },
        None => None,
    }
}

fn string_body(s: &Vec<char>, i: usize, acc: Vec<char>) -> (r: Option<(Vec<char>, usize)>)
    requires
        i <= s.len(),
    ensures
        (match r {
            None => spec_string_body(s@, i as int, acc@) is None,
            Some((v, j)) => spec_string_body(s@, i as int, acc@) == Some((v@, j as int)) && i < j
                <= s.len(),
        }),
    decreases s.len() - i,
{
    if i >= s.len() {
        None
    } else {
        let c = s[i];
        if c == '"' {
            Some((acc, i + 1))
        } else if c == '\\' {
            if i + 1 >= s.len() {
                None
            } else if s[i + 1] == 'u' {
                match unicode_escape(s, i + 2) {
                    Some((d, n)) => {
                        if s.len() - (i + 2) >= n {
                            let mut acc2 = acc;
                            acc2.push(d);
                            string_body(s, i + 2 + n, acc2)
                        } else {
                            None
                        }
                    },
                    None => None,
                }
            } else {
                let e = s[i + 1];
                let decoded: Option<char> = if e == '"' {
                    Some('"')
                } else if e == '\\' {
                    Some('\\')
                } else if e == '/' {
                    Some('/')
                } else if e == 'n' {
                    Some('\n')
                } else if e == 't' {
                    Some('\t')
                } else if e == 'r' {
                    Some('\r')
                } else if e == 'b' {
                    Some('\u{8}')
                } else if e == 'f' {
                    Some('\u{c}')
                } else {
                    None
                };
                match decoded {
                    Some(d) => {
                        let mut acc2 = acc;
                        acc2.push(d);
                        string_body(s, i + 2, acc2)
                    },
                    None => None,
                }
            }
        } else {
            let mut acc2 = acc;
            acc2.push(c);
            string_body(s, i + 1, acc2)
        }
    }
}

/// Parses a quoted string at `i`; yields the decoded characters and the
/// position after the closing quote.
pub open spec fn spec_parse_string(s: Seq<char>, i: int) -> Option<(Seq<char>, int)> {
    if 0 <= i < s.len() && s[i] == '"' {
        spec_string_body(s, i + 1, Seq::empty())
    } else {
        None
    }
}

pub fn parse_string(s: &Vec<char>, i: usize) -> (r: Option<(Vec<char>, usize)>)
    requires
        i <= s.len(),
    ensures
        (match r {
            None => spec_parse_string(s@, i as int) is None,
            Some((v, j)) => spec_parse_string(s@, i as int) == Some((v@, j as int)) && i < j
                <= s.len(),
        }),
{
    if i < s.len() && s[i] == '"' {
        let acc: Vec<char> = Vec::new();
        string_body(s, i + 1, acc)
    } else {
        None
    }
}

/// Accumulates decimal digits from `i`; stops at the first non-digit.
/// Overflow of `u64` is a parse failure.
pub open spec fn spec_u64_digits_from(s: Seq<char>, i: int, acc: u64) -> Option<(u64, int)>
    decreases s.len() - i,
{
    if 0 <= i < s.len() && is_digit(s[i]) {
        let d = digit_val(s[i]);
        if acc <= (u64::MAX - d) / 10 {
            spec_u64_digits_from(s, i + 1, (acc * 10 + d) as u64)
        } else {
            None
        }
    } else {
        Some((acc, i))
    }
}

/// Parses an unsigned decimal integer at `i`.
pub open spec fn spec_parse_u64(s: Seq<char>, i: int) -> Option<(u64, int)> {
    if 0 <= i < s.len() && is_digit(s[i]) {
        spec_u64_digits_from(s, i, 0)
    } else {
        None
    }
}

fn u64_digits_from(s: &Vec<char>, i: usize, acc: u64) -> (r: Option<(u64, usize)>)
    requires
        i <= s.len(),
    ensures
        (match r {
            None => spec_u64_digits_from(s@, i as int, acc) is None,
            Some((n, j)) => spec_u64_digits_from(s@, i as int, acc) == Some((n, j as int)) && i <= j
                <= s.len(),
        }),
    decreases s.len() - i,
{
    if i < s.len() {
        let c = s[i];
        if '0' <= c && c <= '9' {
            let d: u64 = if c == '0' {
                0
            } else if c == '1' {
                1
            } else if c == '2' {
                2
            } else if c == '3' {
                3
            } else if c == '4' {
                4
            } else if c == '5' {
                5
            } else if c == '6' {
                6
            } else if c == '7' {
                7
            } else if c == '8' {
                8
            } else {
                9
            };
            assert(d == digit_val(c));
            if acc <= (u64::MAX - d) / 10 {
                return u64_digits_from(s, i + 1, acc * 10 + d);
            } else {
                return None;
            }
        }
        return Some((acc, i));
    }
    Some((acc, i))
}

pub fn parse_u64(s: &Vec<char>, i: usize) -> (r: Option<(u64, usize)>)
    requires
        i <= s.len(),
    ensures
        (match r {
            None => spec_parse_u64(s@, i as int) is None,
            Some((n, j)) => spec_parse_u64(s@, i as int) == Some((n, j as int)) && i <= j
                <= s.len(),
        }),
{
    if i < s.len() {
        let c = s[i];
        if '0' <= c && c <= '9' {
            return u64_digits_from(s, i, 0);
        }
    }
    None
}

/// Position after the literal `lit` when it stands at `i`.
pub open spec fn spec_expect_lit(s: Seq<char>, i: int, lit: Seq<char>) -> Option<int> {
    if 0 <= i && i + lit.len() <= s.len() && s.subrange(i, i + lit.len()) == lit {
        Some(i + lit.len())
    } else {
        None
    }
}

/// Skips one JSON value at `i`, yielding the position just after it.
/// `fuel` only bounds the recursion; the callers hand in enough for any
/// input of the given length.
pub open spec fn spec_skip_value(s: Seq<char>, i: int, fuel: nat) -> Option<int>
    decreases fuel,
{
    if fuel == 0 || i < 0 || i >= s.len() {
        None
    } else {
        let c = s[i];
        if c == '"' {
            match spec_string_body(s, i + 1, Seq::empty()) {
                Some((v, j)) => Some(j),
                None => None,
            }
        } else if is_number_char(c) {
            Some(spec_skip_number(s, i + 1))
        } else if c == 't' {
            spec_expect_lit(s, i, "true"@)
        } else if c == 'f' {
            spec_expect_lit(s, i, "false"@)
        } else if c == 'n' {
            spec_expect_lit(s, i, "null"@)
        } else if c == '[' {
            spec_skip_array(s, i + 1, (fuel - 1) as nat, true)
        } else if c == '{' {
            spec_skip_object(s, i + 1, (fuel - 1) as nat, true)
        } else {
            None
        }
    }
}

/// Consumes the remaining characters of a number already entered.
pub open spec fn spec_skip_number(s: Seq<char>, i: int) -> int
    decreases s.len() - i,
{
    if 0 <= i < s.len() && is_number_char(s[i]) {
        spec_skip_number(s, i + 1)
    } else {
        i
    }
}

/// Skips array elements from just after `[` (or after a comma when
/// `first` is false), through the closing `]`.
pub open spec fn spec_skip_array(s: Seq<char>, i: int, fuel: nat, first: bool) -> Option<int>
    decreases fuel,
{
    if fuel == 0 {
        None
    } else {
        let j = spec_skip_ws(s, i);
        if first && 0 <= j < s.len() && s[j] == ']' {
            Some(j + 1)
        } else {
            match spec_skip_value(s, j, (fuel - 1) as nat) {
                Some(k) => {
                    let m = spec_skip_ws(s, k);
                    if 0 <= m < s.len() && s[m] == ',' {
                        spec_skip_array(s, m + 1, (fuel - 1) as nat, false)
                    } else if 0 <= m < s.len() && s[m] == ']' {
                        Some(m + 1)
                    } else {
                        None
                    }
                },
                None => None,
            }
        }
    }
}

/// Skips object members from just after `{` (or after a comma when
/// `first` is false), through the closing `}`.
pub open spec fn spec_skip_object(s: Seq<char>, i: int, fuel: nat, first: bool) -> Option<int>
    decreases fuel,
{
    if fuel == 0 {
        None
    } else {
        let j = spec_skip_ws(s, i);
        if first && 0 <= j < s.len() && s[j] == '}' {
            Some(j + 1)
        } else {
            match spec_parse_string(s, j) {
                Some((key, k)) => {
                    let k2 = spec_skip_ws(s, k);
                    if 0 <= k2 < s.len() && s[k2] == ':' {
                        match spec_skip_value(s, spec_skip_ws(s, k2 + 1), (fuel - 1) as nat) {
                            Some(ve) => {
                                let m = spec_skip_ws(s, ve);
                                if 0 <= m < s.len() && s[m] == ',' {
                                    spec_skip_object(s, m + 1, (fuel - 1) as nat, false)
                                } else if 0 <= m < s.len() && s[m] == '}' {
                                    Some(m + 1)
                                } else {
                                    None
                                }
                            },
                            None => None,
                        }
                    } else {
                        None
                    }
                },
                None => None,
            }
        }
    }
}

fn expect_lit_true(s: &Vec<char>, i: usize) -> (r: Option<usize>)
    requires
        i <= s.len(),
    ensures
        (match r {
            None => spec_expect_lit(s@, i as int, "true"@) is None,
            Some(j) => spec_expect_lit(s@, i as int, "true"@) == Some(j as int) && i < j <= s.len(),
        }),
{
    proof {
        reveal_strlit("true");
    }
    if i < s.len() && s.len() - i >= 4 && s[i] == 't' && s[i + 1] == 'r' && s[i + 2] == 'u' && s[i + 3] == 'e' {
        proof {
            assert(s@.subrange(i as int, i + 4) =~= "true"@);
        }
        Some(i + 4)
    } else {
        proof {
            if i + 4 <= s.len() {
                assert(s@.subrange(i as int, i + 4).len() == 4);
                if s@.subrange(i as int, i + 4) == "true"@ {
                    assert(s@[i as int] == "true"@[0]);
                    assert(s@[i + 1] == "true"@[1]);
                    assert(s@[i + 2] == "true"@[2]);
                    assert(s@[i + 3] == "true"@[3]);
                }
            }
        }
        None
    }
}

fn expect_lit_false(s: &Vec<char>, i: usize) -> (r: Option<usize>)
    requires
        i <= s.len(),
    ensures
        (match r {
            None => spec_expect_lit(s@, i as int, "false"@) is None,
            Some(j) => spec_expect_lit(s@, i as int, "false"@) == Some(j as int) && i < j
                <= s.len(),
        }),
{
    proof {
        reveal_strlit("false");
    }
    if i < s.len() && s.len() - i >= 5 && s[i] == 'f' && s[i + 1] == 'a' && s[i + 2] == 'l' && s[i + 3] == 's'
        && s[i + 4] == 'e' {
        proof {
            assert(s@.subrange(i as int, i + 5) =~= "false"@);
        }
        Some(i + 5)
    } else {
        proof {
            if i + 5 <= s.len() {
                assert(s@.subrange(i as int, i + 5).len() == 5);
                if s@.subrange(i as int, i + 5) == "false"@ {
                    assert(s@[i as int] == "false"@[0]);
                    assert(s@[i + 1] == "false"@[1]);
                    assert(s@[i + 2] == "false"@[2]);
                    assert(s@[i + 3] == "false"@[3]);
                    assert(s@[i + 4] == "false"@[4]);
                }
            }
        }
        None
    }
}

fn expect_lit_null(s: &Vec<char>, i: usize) -> (r: Option<usize>)
    requires
        i <= s.len(),
    ensures
        (match r {
            None => spec_expect_lit(s@, i as int, "null"@) is None,
            Some(j) => spec_expect_lit(s@, i as int, "null"@) == Some(j as int) && i < j <= s.len(),
        }),
{
    proof {
        reveal_strlit("null");
    }
    if i < s.len() && s.len() - i >= 4 && s[i] == 'n' && s[i + 1] == 'u' && s[i + 2] == 'l' && s[i + 3] == 'l' {
        proof {
            assert(s@.subrange(i as int, i + 4) =~= "null"@);
        }
        Some(i + 4)
    } else {
        proof {
            if i + 4 <= s.len() {
                assert(s@.subrange(i as int, i + 4).len() == 4);
                if s@.subrange(i as int, i + 4) == "null"@ {
                    assert(s@[i as int] == "null"@[0]);
                    assert(s@[i + 1] == "null"@[1]);
                    assert(s@[i + 2] == "null"@[2]);
                    assert(s@[i + 3] == "null"@[3]);
                }
            }
        }
        None
    }
}

fn skip_number(s: &Vec<char>, i: usize) -> (r: usize)
    requires
        i <= s.len(),
    ensures
        r == spec_skip_number(s@, i as int),
        i <= r <= s.len(),
    decreases s.len() - i,
{
    if i < s.len() {
        let c = s[i];
        if ('0' <= c && c <= '9') || c == '-' || c == '+' || c == '.' || c == 'e' || c == 'E' {
            return skip_number(s, i + 1);
        }
    }
    i
}

pub fn skip_value(s: &Vec<char>, i: usize, fuel: usize) -> (r: Option<usize>)
    requires
        i <= s.len(),
    ensures
        (match r {
            None => spec_skip_value(s@, i as int, fuel as nat) is None,
            Some(j) => spec_skip_value(s@, i as int, fuel as nat) == Some(j as int) && i < j
                <= s.len(),
        }),
    decreases fuel,
{
    if fuel == 0 || i >= s.len() {
        None
    } else {
        let c = s[i];
        if c == '"' {
            let acc: Vec<char> = Vec::new();
            match string_body(s, i + 1, acc) {
                Some((_v, j)) => Some(j),
                None => None,
            }
        } else if ('0' <= c && c <= '9') || c == '-' || c == '+' || c == '.' || c == 'e' || c
            == 'E' {
            Some(skip_number(s, i + 1))
        } else if c == 't' {
            expect_lit_true(s, i)
        } else if c == 'f' {
            expect_lit_false(s, i)
        } else if c == 'n' {
            expect_lit_null(s, i)
        } else if c == '[' {
            skip_array(s, i + 1, fuel - 1, true)
        } else if c == '{' {
            skip_object(s, i + 1, fuel - 1, true)
        } else {
            None
        }
    }
}

fn skip_array(s: &Vec<char>, i: usize, fuel: usize, first: bool) -> (r: Option<usize>)
    requires
        i <= s.len(),
    ensures
        (match r {
            None => spec_skip_array(s@, i as int, fuel as nat, first) is None,
            Some(j) => spec_skip_array(s@, i as int, fuel as nat, first) == Some(j as int) && i < j
                <= s.len(),
        }),
    decreases fuel,
{
    if fuel == 0 {
        None
    } else {
        let j = skip_ws(s, i);
        if first && j < s.len() && s[j] == ']' {
            Some(j + 1)
        } else {
            match skip_value(s, j, fuel - 1) {
                Some(k) => {
                    let m = skip_ws(s, k);
                    if m < s.len() && s[m] == ',' {
                        skip_array(s, m + 1, fuel - 1, false)
                    } else if m < s.len() && s[m] == ']' {
                        Some(m + 1)
                    } else {
                        None
                    }
                },
                None => None,
            }
        }
    }
}

fn skip_object(s: &Vec<char>, i: usize, fuel: usize, first: bool) -> (r: Option<usize>)
    requires
        i <= s.len(),
    ensures
        (match r {
            None => spec_skip_object(s@, i as int, fuel as nat, first) is None,
            Some(j) => spec_skip_object(s@, i as int, fuel as nat, first) == Some(j as int) && i < j
                <= s.len(),
        }),
    decreases fuel,
{
    if fuel == 0 {
        None
    } else {
        let j = skip_ws(s, i);
        if first && j < s.len() && s[j] == '}' {
            Some(j + 1)
        } else {
            match parse_string(s, j) {
                Some((_key, k)) => {
                    let k2 = skip_ws(s, k);
                    if k2 < s.len() && s[k2] == ':' {
                        let vs = skip_ws(s, k2 + 1);
                        match skip_value(s, vs, fuel - 1) {
                            Some(ve) => {
                                let m = skip_ws(s, ve);
                                if m < s.len() && s[m] == ',' {
                                    skip_object(s, m + 1, fuel - 1, false)
                                } else if m < s.len() && s[m] == '}' {
                                    Some(m + 1)
                                } else {
                                    None
                                }
                            },
                            None => None,
                        }
                    } else {
                        None
                    }
                },
                None => None,
            }
        }
    }
}

/// Every recorded span lies inside a text of length `n`.
pub open spec fn spans_ok(ms: Seq<(Vec<char>, usize, usize)>, n: int) -> bool {
    forall|k: int| 0 <= k < ms.len() ==> #[trigger] ms[k].1 <= ms[k].2 && ms[k].2 <= n
}

/// One scanned member of a JSON object: the decoded key, and the start and
/// end positions of the member's raw value text.
pub open spec fn members_view(ms: Seq<(Vec<char>, usize, usize)>) -> Seq<(Seq<char>, int, int)> {
    Seq::new(ms.len(), |k: int| (ms[k].0@, ms[k].1 as int, ms[k].2 as int))
}

/// Scans object members from just after `{` (or after a comma when `first`
/// is false), recording each key with its value span, through the closing
/// `}`.
pub open spec fn spec_members(
    s: Seq<char>,
    i: int,
    fuel: nat,
    first: bool,
    acc: Seq<(Seq<char>, int, int)>,
) -> Option<(Seq<(Seq<char>, int, int)>, int)>
    decreases fuel,
{
    if fuel == 0 {
        None
    } else {
        let j = spec_skip_ws(s, i);
        if first && 0 <= j < s.len() && s[j] == '}' {
            Some((acc, j + 1))
        } else {
            match spec_parse_string(s, j) {
                Some((key, k)) => {
                    let k2 = spec_skip_ws(s, k);
                    if 0 <= k2 < s.len() && s[k2] == ':' {
                        let vs = spec_skip_ws(s, k2 + 1);
                        match spec_skip_value(s, vs, (fuel - 1) as nat) {
                            Some(ve) => {
                                let m = spec_skip_ws(s, ve);
                                if 0 <= m < s.len() && s[m] == ',' {
                                    spec_members(s, m + 1, (fuel - 1) as nat, false, acc.push((key, vs, ve)))
                                } else if 0 <= m < s.len() && s[m] == '}' {
                                    Some((acc.push((key, vs, ve)), m + 1))
                                } else {
                                    None
                                }
                            },
                            None => None,
                        }
                    } else {
                        None
                    }
                },
                None => None,
            }
        }
    }
}

/// Scans object members from just after `{`, recording each key with its
/// value span; implements `spec_members` exactly.
pub fn scan_members(
    s: &Vec<char>,
    i: usize,
    fuel: usize,
    first: bool,
    acc: Vec<(Vec<char>, usize, usize)>,
) -> (r: Option<(Vec<(Vec<char>, usize, usize)>, usize)>)
    requires
        i <= s.len(),
        spans_ok(acc@, s@.len() as int),
    ensures
        (match r {
            None => spec_members(s@, i as int, fuel as nat, first, members_view(acc@)) is None,
            Some((ms, j)) => spec_members(s@, i as int, fuel as nat, first, members_view(acc@))
                == Some((members_view(ms@), j as int)) && j <= s.len() && spans_ok(
                ms@,
                s@.len() as int,
            ),
        }),
    decreases fuel,
{
    if fuel == 0 {
        None
    } else {
        let j = skip_ws(s, i);
        if first && j < s.len() && s[j] == '}' {
            Some((acc, j + 1))
        } else {
            match parse_string(s, j) {
                Some((key, k)) => {
                    let k2 = skip_ws(s, k);
                    if k2 < s.len() && s[k2] == ':' {
                        let vs = skip_ws(s, k2 + 1);
                        match skip_value(s, vs, fuel - 1) {
                            Some(ve) => {
                                let m = skip_ws(s, ve);
                                let mut acc2 = acc;
                                acc2.push((key, vs, ve));
                                proof {
                                    assert(members_view(acc2@) =~= members_view(acc@).push(
                                        (acc2@.last().0@, vs as int, ve as int),
                                    ));
                                    assert(spans_ok(acc2@, s@.len() as int)) by {
                                        assert(forall|k: int|
                                            0 <= k < acc@.len() ==> acc2@[k] == #[trigger] acc@[k]);
                                    }
                                }
                                if m < s.len() && s[m] == ',' {
                                    scan_members(s, m + 1, fuel - 1, false, acc2)
                                } else if m < s.len() && s[m] == '}' {
                                    Some((acc2, m + 1))
                                } else {
                                    None
                                }
                            },
                            None => None,
                        }
                    } else {
                        None
                    }
                },
                None => None,
            }
        }
    }
}

/// Recursion budget that suffices for any document of length `n`.
pub open spec fn doc_fuel(n: int) -> int {
    2 * n + 4
}

/// Length bound under which the recursion budget fits in `usize`: the one
/// limit the machine forces on a text.
pub open spec fn spec_text_fits(n: int) -> bool {
    2 * n + 4 <= usize::MAX as int
}

/// Length bound under which the recursion budget fits in `usize`.
pub open spec fn fits_doc(s: Seq<char>) -> bool {
    spec_text_fits(s.len() as int)
}

/// Decides `spec_text_fits` for a length.
pub fn text_fits(n: usize) -> (r: bool)
    ensures
        r == spec_text_fits(n as int),
{
    n <= (usize::MAX - 4) / 2
}

/// Parses a whole document: optional whitespace, one JSON object, optional
/// whitespace, end of input. Yields the object's scanned members.
pub open spec fn spec_parse_doc(s: Seq<char>) -> Option<Seq<(Seq<char>, int, int)>> {
    let i = spec_skip_ws(s, 0);
    if 0 <= i < s.len() && s[i] == '{' {
        match spec_members(s, i + 1, doc_fuel(s.len() as int) as nat, true, Seq::empty()) {
            Some((ms, j)) => {
                if spec_skip_ws(s, j) == s.len() {
                    Some(ms)
                } else {
                    None
                }
            },
            None => None,
        }
    } else {
        None
    }
}

/// A scanned document: the character text and its top-level members.
pub struct JsonDoc {
    pub chars: Vec<char>,
    pub members: Vec<(Vec<char>, usize, usize)>,
}

impl JsonDoc {
    /// The members are exactly what scanning the text yields, with value
    /// spans inside the text.
    pub open spec fn wf(&self) -> bool {
        &&& fits_doc(self.chars@)
        &&& spec_parse_doc(self.chars@) == Some(members_view(self.members@))
        &&& spans_ok(self.members@, self.chars@.len() as int)
    }
}

/// Scans one JSON object document.
pub fn parse_doc(chars: Vec<char>) -> (r: Option<JsonDoc>)
    requires
        fits_doc(chars@),
    ensures
        (match r {
            None => spec_parse_doc(chars@) is None,
            Some(d) => d.chars@ == chars@ && d.wf(),
        }),
{
    let i = skip_ws(&chars, 0);
    if i < chars.len() && chars[i] == '{' {
        let fuel: usize = 2 * chars.len() + 4;
        proof {
            assert(fuel as nat == doc_fuel(chars@.len() as int) as nat);
        }
        let acc: Vec<(Vec<char>, usize, usize)> = Vec::new();
        proof {
            assert(members_view(acc@) =~= Seq::<(Seq<char>, int, int)>::empty());
        }
        match scan_members(&chars, i + 1, fuel, true, acc) {
            Some((ms, j)) => {
                let k = skip_ws(&chars, j);
                if k == chars.len() {
                    Some(JsonDoc { chars, members: ms })
                } else {
                    None
                }
            },
            None => None,
        }
    } else {
        None
    }
}

/// The value span of the first member whose key is `key`, searching from
/// index `k`.
pub open spec fn spec_find_member(
    ms: Seq<(Seq<char>, int, int)>,
    key: Seq<char>,
    k: int,
) -> Option<(int, int)>
    decreases ms.len() - k,
{
    if k < 0 || k >= ms.len() {
        None
    } else if ms[k].0 == key {
        Some((ms[k].1, ms[k].2))
    } else {
        spec_find_member(ms, key, k + 1)
    }
}

fn eq_chars(a: &Vec<char>, b: &Vec<char>) -> (r: bool)
    ensures
        r == (a@ == b@),
{
    if a.len() != b.len() {
        return false;
    }
    let mut k: usize = 0;
    while k < a.len()
        invariant
            k <= a.len(),
            a@.len() == b@.len(),
            forall|j: int| 0 <= j < k ==> a@[j] == b@[j],
        decreases a.len() - k,
    {
        if a[k] != b[k] {
            return false;
        }
        k += 1;
    }
    proof {
        assert(a@ =~= b@);
    }
    true
}

fn find_member_from(
    ms: &Vec<(Vec<char>, usize, usize)>,
    key: &Vec<char>,
    k: usize,
) -> (r: Option<(usize, usize)>)
    requires
        k <= ms.len(),
    ensures
        (match r {
            None => spec_find_member(members_view(ms@), key@, k as int) is None,
            Some((vs, ve)) => spec_find_member(members_view(ms@), key@, k as int) == Some(
                (vs as int, ve as int),
            ),
        }),
    decreases ms.len() - k,
{
    if k >= ms.len() {
        None
    } else {
        if eq_chars(&ms[k].0, key) {
            Some((ms[k].1, ms[k].2))
        } else {
            find_member_from(ms, key, k + 1)
        }
    }
}

/// The decoded string value of member `key`, when that member's whole value
/// is one JSON string.
pub open spec fn spec_get_string(
    s: Seq<char>,
    ms: Seq<(Seq<char>, int, int)>,
    key: Seq<char>,
) -> Option<Seq<char>> {
    match spec_find_member(ms, key, 0) {
        Some((vs, ve)) => match spec_parse_string(s, vs) {
            Some((v, j)) => if j == ve {
                Some(v)
            } else {
                None
            },
            None => None,
        },
        None => None,
    }
}

pub fn get_string(chars: &Vec<char>, ms: &Vec<(Vec<char>, usize, usize)>, key: &str) -> (r:
    Option<String>)
    requires
        spans_ok(ms@, chars@.len() as int),
    ensures
        (match r {
            None => spec_get_string(chars@, members_view(ms@), key@) is None,
            Some(v) => spec_get_string(chars@, members_view(ms@), key@) == Some(v@),
        }),
{
    let keyc = crate::strutil::str_to_chars(key);
    match find_member_from(ms, &keyc, 0) {
        Some((vs, ve)) => {
            proof {
                find_member_bounds(ms@, keyc@, 0, chars@.len() as int);
            }
            match parse_string(chars, vs) {
                Some((v, j)) => if j == ve {
                    Some(crate::strutil::chars_to_string(&v))
                } else {
                    None
                },
                None => None,
            }
        },
        None => None,
    }
}

/// The unsigned integer value of member `key`, when that member's whole
/// value is one decimal integer.
pub open spec fn spec_get_u64(
    s: Seq<char>,
    ms: Seq<(Seq<char>, int, int)>,
    key: Seq<char>,
) -> Option<u64> {
    match spec_find_member(ms, key, 0) {
        Some((vs, ve)) => match spec_parse_u64(s, vs) {
            Some((n, j)) => if j == ve {
                Some(n)
            } else {
                None
            },
            None => None,
        },
        None => None,
    }
}

pub fn get_u64(chars: &Vec<char>, ms: &Vec<(Vec<char>, usize, usize)>, key: &str) -> (r: Option<
    u64,
>)
    requires
        spans_ok(ms@, chars@.len() as int),
    ensures
        r == spec_get_u64(chars@, members_view(ms@), key@),
{
    let keyc = crate::strutil::str_to_chars(key);
    match find_member_from(ms, &keyc, 0) {
        Some((vs, ve)) => {
            proof {
                find_member_bounds(ms@, keyc@, 0, chars@.len() as int);
            }
            match parse_u64(chars, vs) {
                Some((n, j)) => if j == ve {
                    Some(n)
                } else {
                    None
                },
                None => None,
            }
        },
        None => None,
    }
}

/// The boolean value of member `key`.
pub open spec fn spec_get_bool(
    s: Seq<char>,
    ms: Seq<(Seq<char>, int, int)>,
    key: Seq<char>,
) -> Option<bool> {
    match spec_find_member(ms, key, 0) {
        Some((vs, ve)) => {
            if spec_expect_lit(s, vs, "true"@) == Some(ve) {
                Some(true)
            } else if spec_expect_lit(s, vs, "false"@) == Some(ve) {
                Some(false)
            } else {
                None
            }
        },
        None => None,
    }
}

pub fn get_bool(chars: &Vec<char>, ms: &Vec<(Vec<char>, usize, usize)>, key: &str) -> (r: Option<
    bool,
>)
    requires
        spans_ok(ms@, chars@.len() as int),
    ensures
        r == spec_get_bool(chars@, members_view(ms@), key@),
{
    let keyc = crate::strutil::str_to_chars(key);
    match find_member_from(ms, &keyc, 0) {
        Some((vs, ve)) => {
            proof {
                find_member_bounds(ms@, keyc@, 0, chars@.len() as int);
            }
            let is_true: bool = match expect_lit_true(chars, vs) {
                Some(j) => j == ve,
                None => false,
            };
            if is_true {
                Some(true)
            } else {
                let is_false: bool = match expect_lit_false(chars, vs) {
                    Some(j) => j == ve,
                    None => false,
                };
                if is_false {
                    Some(false)
                } else {
                    None
                }
            }
        },
        None => None,
    }
}

/// The raw value text of member `key`, verbatim.
pub open spec fn spec_get_raw(
    s: Seq<char>,
    ms: Seq<(Seq<char>, int, int)>,
    key: Seq<char>,
) -> Option<Seq<char>> {
    match spec_find_member(ms, key, 0) {
        Some((vs, ve)) => Some(s.subrange(vs, ve)),
        None => None,
    }
}

pub fn get_raw(chars: &Vec<char>, ms: &Vec<(Vec<char>, usize, usize)>, key: &str) -> (r: Option<
    String,
>)
    requires
        spans_ok(ms@, chars@.len() as int),
    ensures
        (match r {
            None => spec_get_raw(chars@, members_view(ms@), key@) is None,
            Some(v) => spec_get_raw(chars@, members_view(ms@), key@) == Some(v@),
        }),
{
    let keyc = crate::strutil::str_to_chars(key);
    match find_member_from(ms, &keyc, 0) {
        Some((vs, ve)) => {
            proof {
                find_member_bounds(ms@, keyc@, 0, chars@.len() as int);
            }
            let mut v: Vec<char> = Vec::new();
            let mut k: usize = vs;
            while k < ve
                invariant
                    vs <= k <= ve,
                    ve <= chars@.len(),
                    v@ == chars@.subrange(vs as int, k as int),
                decreases ve - k,
            {
                v.push(chars[k]);
                k += 1;
                proof {
                    assert(v@ =~= chars@.subrange(vs as int, k as int));
                }
            }
            Some(crate::strutil::chars_to_string(&v))
        },
        None => None,
    }
}

/// `null` or a string: the value of an optional string member.
pub open spec fn spec_get_opt_string(
    s: Seq<char>,
    ms: Seq<(Seq<char>, int, int)>,
    key: Seq<char>,
) -> Option<Option<Seq<char>>> {
    match spec_find_member(ms, key, 0) {
        Some((vs, ve)) => {
            if spec_expect_lit(s, vs, "null"@) == Some(ve) {
                Some(None)
            } else {
                match spec_parse_string(s, vs) {
                    Some((v, j)) => if j == ve {
                        Some(Some(v))
                    } else {
                        None
                    },
                    None => None,
                }
            }
        },
        None => None,
    }
}

pub fn get_opt_string(chars: &Vec<char>, ms: &Vec<(Vec<char>, usize, usize)>, key: &str) -> (r:
    Option<Option<String>>)
    requires
        spans_ok(ms@, chars@.len() as int),
    ensures
        (match r {
            None => spec_get_opt_string(chars@, members_view(ms@), key@) is None,
            Some(None) => spec_get_opt_string(chars@, members_view(ms@), key@) == Some(
                None::<Seq<char>>,
            ),
            Some(Some(v)) => spec_get_opt_string(chars@, members_view(ms@), key@) == Some(
                Some(v@),
            ),
        }),
{
    let keyc = crate::strutil::str_to_chars(key);
    match find_member_from(ms, &keyc, 0) {
        Some((vs, ve)) => {
            proof {
                find_member_bounds(ms@, keyc@, 0, chars@.len() as int);
            }
            let is_null: bool = match expect_lit_null(chars, vs) {
                Some(j) => j == ve,
                None => false,
            };
            if is_null {
                Some(None)
            } else {
                match parse_string(chars, vs) {
                    Some((v, j)) => if j == ve {
                        Some(Some(crate::strutil::chars_to_string(&v)))
                    } else {
                        None
                    },
                    None => None,
                }
            }
        },
        None => None,
    }
}

/// The scanned members of member `key`, when its value is itself an object.
pub open spec fn spec_get_object(
    s: Seq<char>,
    ms: Seq<(Seq<char>, int, int)>,
    key: Seq<char>,
) -> Option<Seq<(Seq<char>, int, int)>> {
    match spec_find_member(ms, key, 0) {
        Some((vs, ve)) => {
            if 0 <= vs < s.len() && s[vs] == '{' {
                match spec_members(s, vs + 1, doc_fuel(s.len() as int) as nat, true, Seq::empty()) {
                    Some((sub, j)) => if j == ve {
                        Some(sub)
                    } else {
                        None
                    },
                    None => None,
                }
            } else {
                None
            }
        },
        None => None,
    }
}

pub fn get_object(chars: &Vec<char>, ms: &Vec<(Vec<char>, usize, usize)>, key: &str) -> (r: Option<
    Vec<(Vec<char>, usize, usize)>,
>)
    requires
        fits_doc(chars@),
        spans_ok(ms@, chars@.len() as int),
    ensures
        (match r {
            None => spec_get_object(chars@, members_view(ms@), key@) is None,
            Some(sub) => spec_get_object(chars@, members_view(ms@), key@) == Some(
                members_view(sub@),
            ) && spans_ok(sub@, chars@.len() as int),
        }),
{
    let keyc = crate::strutil::str_to_chars(key);
    match find_member_from(ms, &keyc, 0) {
        Some((vs, ve)) => {
            proof {
                find_member_bounds(ms@, keyc@, 0, chars@.len() as int);
            }
            if vs < chars.len() && chars[vs] == '{' {
                let fuel: usize = 2 * chars.len() + 4;
                proof {
                    assert(fuel as nat == doc_fuel(chars@.len() as int) as nat);
                }
                let acc: Vec<(Vec<char>, usize, usize)> = Vec::new();
                proof {
                    assert(members_view(acc@) =~= Seq::<(Seq<char>, int, int)>::empty());
                }
                match scan_members(chars, vs + 1, fuel, true, acc) {
                    Some((sub, j)) => if j == ve {
                        Some(sub)
                    } else {
                        None
                    },
                    None => None,
                }
            } else {
                None
            }
        },
        None => None,
    }
}

/// The elements of a string array standing at `i` (just after `[`, or after
/// a comma when `first` is false), through the closing `]`.
pub open spec fn spec_string_elems(
    s: Seq<char>,
    i: int,
    fuel: nat,
    first: bool,
    acc: Seq<Seq<char>>,
) -> Option<(Seq<Seq<char>>, int)>
    decreases fuel,
{
    if fuel == 0 {
        None
    } else {
        let j = spec_skip_ws(s, i);
        if first && 0 <= j < s.len() && s[j] == ']' {
            Some((acc, j + 1))
        } else {
            match spec_parse_string(s, j) {
                Some((v, k)) => {
                    let m = spec_skip_ws(s, k);
                    if 0 <= m < s.len() && s[m] == ',' {
                        spec_string_elems(s, m + 1, (fuel - 1) as nat, false, acc.push(v))
                    } else if 0 <= m < s.len() && s[m] == ']' {
                        Some((acc.push(v), m + 1))
                    } else {
                        None
                    }
                },
                None => None,
            }
        }
    }
}

/// The view of a vector of strings, element by element.
pub open spec fn strings_view(v: Seq<String>) -> Seq<Seq<char>> {
    Seq::new(v.len(), |k: int| v[k]@)
}

fn string_elems(
    s: &Vec<char>,
    i: usize,
    fuel: usize,
    first: bool,
    acc: Vec<String>,
) -> (r: Option<(Vec<String>, usize)>)
    requires
        i <= s.len(),
    ensures
        (match r {
            None => spec_string_elems(s@, i as int, fuel as nat, first, strings_view(acc@))
                is None,
            Some((v, j)) => spec_string_elems(s@, i as int, fuel as nat, first, strings_view(acc@))
                == Some((strings_view(v@), j as int)),
        }),
    decreases fuel,
{
    if fuel == 0 {
        None
    } else {
        let j = skip_ws(s, i);
        if first && j < s.len() && s[j] == ']' {
            Some((acc, j + 1))
        } else {
            match parse_string(s, j) {
                Some((v, k)) => {
                    let m = skip_ws(s, k);
                    let mut acc2 = acc;
                    acc2.push(crate::strutil::chars_to_string(&v));
                    proof {
                        assert(strings_view(acc2@) =~= strings_view(acc@).push(v@));
                    }
                    if m < s.len() && s[m] == ',' {
                        string_elems(s, m + 1, fuel - 1, false, acc2)
                    } else if m < s.len() && s[m] == ']' {
                        Some((acc2, m + 1))
                    } else {
                        None
                    }
                },
                None => None,
            }
        }
    }
}

/// The elements of member `key`, when its value is an array of strings.
pub open spec fn spec_get_string_array(
    s: Seq<char>,
    ms: Seq<(Seq<char>, int, int)>,
    key: Seq<char>,
) -> Option<Seq<Seq<char>>> {
    match spec_find_member(ms, key, 0) {
        Some((vs, ve)) => {
            if 0 <= vs < s.len() && s[vs] == '[' {
                match spec_string_elems(
                    s,
                    vs + 1,
                    doc_fuel(s.len() as int) as nat,
                    true,
                    Seq::empty(),
                ) {
                    Some((v, j)) => if j == ve {
                        Some(v)
                    } else {
                        None
                    },
                    None => None,
                }
            } else {
                None
            }
        },
        None => None,
    }
}

pub fn get_string_array(chars: &Vec<char>, ms: &Vec<(Vec<char>, usize, usize)>, key: &str) -> (r:
    Option<Vec<String>>)
    requires
        fits_doc(chars@),
        spans_ok(ms@, chars@.len() as int),
    ensures
        (match r {
            None => spec_get_string_array(chars@, members_view(ms@), key@) is None,
            Some(v) => spec_get_string_array(chars@, members_view(ms@), key@) == Some(
                strings_view(v@),
            ),
        }),
{
    let keyc = crate::strutil::str_to_chars(key);
    match find_member_from(ms, &keyc, 0) {
        Some((vs, ve)) => {
            proof {
                find_member_bounds(ms@, keyc@, 0, chars@.len() as int);
            }
            if vs < chars.len() && chars[vs] == '[' {
                let fuel: usize = 2 * chars.len() + 4;
                proof {
                    assert(fuel as nat == doc_fuel(chars@.len() as int) as nat);
                }
                let acc: Vec<String> = Vec::new();
                proof {
                    assert(strings_view(acc@) =~= Seq::<Seq<char>>::empty());
                }
                match string_elems(chars, vs + 1, fuel, true, acc) {
                    Some((v, j)) => if j == ve {
                        Some(v)
                    } else {
                        None
                    },
                    None => None,
                }
            } else {
                None
            }
        },
        None => None,
    }
}

/// The view of a vector of string pairs, pair by pair.
pub open spec fn pairs_view(v: Seq<(String, String)>) -> Seq<(Seq<char>, Seq<char>)> {
    Seq::new(v.len(), |k: int| (v[k].0@, v[k].1@))
}

/// Reads an object whose member values are all strings, as key/value pairs
/// in member order.
pub open spec fn spec_string_pairs(
    s: Seq<char>,
    ms: Seq<(Seq<char>, int, int)>,
    k: int,
    acc: Seq<(Seq<char>, Seq<char>)>,
) -> Option<Seq<(Seq<char>, Seq<char>)>>
    decreases ms.len() - k,
{
    if k < 0 || k >= ms.len() {
        Some(acc)
    } else {
        match spec_parse_string(s, ms[k].1) {
            Some((v, j)) => if j == ms[k].2 {
                spec_string_pairs(s, ms, k + 1, acc.push((ms[k].0, v)))
            } else {
                None
            },
            None => None,
        }
    }
}

fn string_pairs(
    chars: &Vec<char>,
    ms: &Vec<(Vec<char>, usize, usize)>,
    k: usize,
    acc: Vec<(String, String)>,
) -> (r: Option<Vec<(String, String)>>)
    requires
        k <= ms.len(),
        spans_ok(ms@, chars@.len() as int),
    ensures
        (match r {
            None => spec_string_pairs(chars@, members_view(ms@), k as int, pairs_view(acc@))
                is None,
            Some(v) => spec_string_pairs(chars@, members_view(ms@), k as int, pairs_view(acc@))
                == Some(pairs_view(v@)),
        }),
    decreases ms.len() - k,
{
    if k >= ms.len() {
        Some(acc)
    } else {
        let vs = ms[k].1;
        let ve = ms[k].2;
        assert(ms@[k as int].1 <= ms@[k as int].2 && ms@[k as int].2 <= chars@.len());
        match parse_string(chars, vs) {
            Some((v, j)) => if j == ve {
                let mut acc2 = acc;
                let keystr = crate::strutil::chars_to_string(&ms[k].0);
                acc2.push((keystr, crate::strutil::chars_to_string(&v)));
                proof {
                    assert(pairs_view(acc2@) =~= pairs_view(acc@).push(
                        (ms@[k as int].0@, v@),
                    ));
                }
                string_pairs(chars, ms, k + 1, acc2)
            } else {
                None
            },
            None => None,
        }
    }
}

/// The key/value pairs of member `key`, when its value is an object all of
/// whose member values are strings.
pub open spec fn spec_get_string_map(
    s: Seq<char>,
    ms: Seq<(Seq<char>, int, int)>,
    key: Seq<char>,
) -> Option<Seq<(Seq<char>, Seq<char>)>> {
    match spec_get_object(s, ms, key) {
        Some(sub) => spec_string_pairs(s, sub, 0, Seq::empty()),
        None => None,
    }
}

pub fn get_string_map(chars: &Vec<char>, ms: &Vec<(Vec<char>, usize, usize)>, key: &str) -> (r:
    Option<Vec<(String, String)>>)
    requires
        fits_doc(chars@),
        spans_ok(ms@, chars@.len() as int),
    ensures
        (match r {
            None => spec_get_string_map(chars@, members_view(ms@), key@) is None,
            Some(v) => spec_get_string_map(chars@, members_view(ms@), key@) == Some(
                pairs_view(v@),
            ),
        }),
{
    match get_object(chars, ms, key) {
        Some(sub) => {
            let acc: Vec<(String, String)> = Vec::new();
            proof {
                assert(pairs_view(acc@) =~= Seq::<(Seq<char>, Seq<char>)>::empty());
            }
            string_pairs(chars, &sub, 0, acc)
        },
        None => None,
    }
}

/// A found member's span lies inside a text of length `n`.
proof fn find_member_bounds(ms: Seq<(Vec<char>, usize, usize)>, key: Seq<char>, k: int, n: int)
    requires
        spans_ok(ms, n),
        k >= 0,
    ensures
        (match spec_find_member(members_view(ms), key, k) {
            Some((vs, ve)) => 0 <= vs <= ve <= n,
            None => true,
        }),
    decreases ms.len() - k,
{
    if k < ms.len() {
        if members_view(ms)[k].0 == key {
        } else {
            find_member_bounds(ms, key, k + 1, n);
        }
    }
}

/// How one character is written inside a JSON string literal.
pub open spec fn escape_seq(c: char) -> Seq<char> {
    if c == '"' {
        seq!['\\', '"']
    } else if c == '\\' {
        seq!['\\', '\\']
    } else if c == '\n' {
        seq!['\\', 'n']
    } else if c == '\t' {
        seq!['\\', 't']
    } else if c == '\r' {
        seq!['\\', 'r']
    } else if c == '\u{8}' {
        seq!['\\', 'b']
    } else if c == '\u{c}' {
        seq!['\\', 'f']
    } else if (c as u32) < 0x20 {
        seq![
            '\\',
            'u',
            '0',
            '0',
            hex_digit_char(((c as u32) / 16) as u32),
            hex_digit_char(((c as u32) % 16) as u32),
        ]
    } else {
        seq![c]
    }
}

/// The escaped body of a string literal, from index `i` on.
pub open spec fn escaped_from(s: Seq<char>, i: int) -> Seq<char>
    decreases s.len() - i,
{
    if i < 0 || i >= s.len() {
        Seq::empty()
    } else {
        escape_seq(s[i]) + escaped_from(s, i + 1)
    }
}

/// A whole JSON string literal: quote, escaped body, quote.
pub open spec fn spec_json_string(s: Seq<char>) -> Seq<char> {
    seq!['"'] + escaped_from(s, 0) + seq!['"']
}

fn hex_digit_char_exec(d: u32) -> (r: char)
    requires
        d < 16,
    ensures
        r == hex_digit_char(d),
{
    if d == 0 {
        '0'
    } else if d == 1 {
        '1'
    } else if d == 2 {
        '2'
    } else if d == 3 {
        '3'
    } else if d == 4 {
        '4'
    } else if d == 5 {
        '5'
    } else if d == 6 {
        '6'
    } else if d == 7 {
        '7'
    } else if d == 8 {
        '8'
    } else if d == 9 {
        '9'
    } else if d == 10 {
        'a'
    } else if d == 11 {
        'b'
    } else if d == 12 {
        'c'
    } else if d == 13 {
        'd'
    } else if d == 14 {
        'e'
    } else {
        'f'
    }
}

fn push_escaped(s: &Vec<char>, i: usize, out: &mut Vec<char>)
    requires
        i <= s.len(),
    ensures
        final(out)@ == old(out)@ + escaped_from(s@, i as int),
    decreases s.len() - i,
{
    if i < s.len() {
        let c = s[i];
        if c == '"' {
            out.push('\\');
            out.push('"');
        } else if c == '\\' {
            out.push('\\');
            out.push('\\');
        } else if c == '\n' {
            out.push('\\');
            out.push('n');
        } else if c == '\t' {
            out.push('\\');
            out.push('t');
        } else if c == '\r' {
            out.push('\\');
            out.push('r');
        } else if c == '\u{8}' {
            out.push('\\');
            out.push('b');
        } else if c == '\u{c}' {
            out.push('\\');
            out.push('f');
        } else {
            let v: u32 = c as u32;
            if v < 0x20 {
                out.push('\\');
                out.push('u');
                out.push('0');
                out.push('0');
                out.push(hex_digit_char_exec(v / 16));
                out.push(hex_digit_char_exec(v % 16));
            } else {
                out.push(c);
            }
        }
        push_escaped(s, i + 1, out);
        assert(out@ =~= old(out)@ + escaped_from(s@, i as int));
    } else {
        assert(out@ =~= old(out)@ + escaped_from(s@, i as int));
    }
}

/// Appends the JSON string literal for `s` to `out`.
pub fn push_json_string(s: &str, out: &mut Vec<char>)
    ensures
        final(out)@ == old(out)@ + spec_json_string(s@),
{
    let chars = crate::strutil::str_to_chars(s);
    out.push('"');
    push_escaped(&chars, 0, out);
    out.push('"');
    assert(out@ =~= old(out)@ + spec_json_string(s@));
}

/// Appends the characters of `lit` to `out`, verbatim.
pub fn push_str_chars(lit: &str, out: &mut Vec<char>)
    ensures
        final(out)@ == old(out)@ + lit@,
{
    let mut chars = crate::strutil::str_to_chars(lit);
    out.append(&mut chars);
}

/// The array items from index `i` on, each preceded by a comma.
pub open spec fn arr_rest_text(elems: Seq<Seq<char>>, i: int) -> Seq<char>
    decreases elems.len() - i,
{
    if i < 0 || i >= elems.len() {
        Seq::empty()
    } else {
        seq![','] + spec_json_string(elems[i]) + arr_rest_text(elems, i + 1)
    }
}

/// A JSON array of string literals.
pub open spec fn spec_string_array_text(elems: Seq<Seq<char>>) -> Seq<char> {
    if elems.len() == 0 {
        seq!['[', ']']
    } else {
        seq!['['] + spec_json_string(elems[0]) + arr_rest_text(elems, 1) + seq![']']
    }
}

fn push_arr_rest(elems: &Vec<String>, i: usize, out: &mut Vec<char>)
    requires
        i <= elems.len(),
    ensures
        final(out)@ == old(out)@ + arr_rest_text(strings_view(elems@), i as int),
    decreases elems.len() - i,
{
    if i < elems.len() {
        out.push(',');
        push_json_string(elems[i].as_str(), out);
        push_arr_rest(elems, i + 1, out);
        assert(out@ =~= old(out)@ + arr_rest_text(strings_view(elems@), i as int));
    } else {
        assert(out@ =~= old(out)@ + arr_rest_text(strings_view(elems@), i as int));
    }
}

/// Appends a JSON array holding the given strings to `out`.
pub fn push_string_array(elems: &Vec<String>, out: &mut Vec<char>)
    ensures
        final(out)@ == old(out)@ + spec_string_array_text(strings_view(elems@)),
{
    out.push('[');
    if elems.len() > 0 {
        push_json_string(elems[0].as_str(), out);
        push_arr_rest(elems, 1, out);
    }
    out.push(']');
    assert(out@ =~= old(out)@ + spec_string_array_text(strings_view(elems@)));
}

/// The object members from index `i` on, each preceded by a comma.
pub open spec fn map_rest_text(pairs: Seq<(Seq<char>, Seq<char>)>, i: int) -> Seq<char>
    decreases pairs.len() - i,
{
    if i < 0 || i >= pairs.len() {
        Seq::empty()
    } else {
        seq![','] + spec_json_string(pairs[i].0) + seq![':'] + spec_json_string(pairs[i].1)
            + map_rest_text(pairs, i + 1)
    }
}

/// A JSON object whose member values are all string literals.
pub open spec fn spec_string_map_text(pairs: Seq<(Seq<char>, Seq<char>)>) -> Seq<char> {
    if pairs.len() == 0 {
        seq!['{', '}']
    } else {
        seq!['{'] + spec_json_string(pairs[0].0) + seq![':'] + spec_json_string(pairs[0].1)
            + map_rest_text(pairs, 1) + seq!['}']
    }
}

fn push_map_rest(pairs: &Vec<(String, String)>, i: usize, out: &mut Vec<char>)
    requires
        i <= pairs.len(),
    ensures
        final(out)@ == old(out)@ + map_rest_text(pairs_view(pairs@), i as int),
    decreases pairs.len() - i,
{
    if i < pairs.len() {
        out.push(',');
        push_json_string(pairs[i].0.as_str(), out);
        out.push(':');
        push_json_string(pairs[i].1.as_str(), out);
        push_map_rest(pairs, i + 1, out);
        assert(out@ =~= old(out)@ + map_rest_text(pairs_view(pairs@), i as int));
    } else {
        assert(out@ =~= old(out)@ + map_rest_text(pairs_view(pairs@), i as int));
    }
}

/// Appends a JSON object holding the given string pairs to `out`.
pub fn push_string_map(pairs: &Vec<(String, String)>, out: &mut Vec<char>)
    ensures
        final(out)@ == old(out)@ + spec_string_map_text(pairs_view(pairs@)),
{
    out.push('{');
    if pairs.len() > 0 {
        push_json_string(pairs[0].0.as_str(), out);
        out.push(':');
        push_json_string(pairs[0].1.as_str(), out);
        push_map_rest(pairs, 1, out);
    }
    out.push('}');
    assert(out@ =~= old(out)@ + spec_string_map_text(pairs_view(pairs@)));
}

/// One JSON value of any kind, with optional surrounding whitespace and
/// nothing after it.
pub open spec fn spec_is_json_value_text(s: Seq<char>) -> bool {
    let i = spec_skip_ws(s, 0);
    match spec_skip_value(s, i, doc_fuel(s.len() as int) as nat) {
        Some(j) => spec_skip_ws(s, j) == s.len(),
        None => false,
    }
}

pub fn is_json_value_text(chars: &Vec<char>) -> (r: bool)
    requires
        fits_doc(chars@),
    ensures
        r == spec_is_json_value_text(chars@),
{
    let i = skip_ws(chars, 0);
    let fuel: usize = 2 * chars.len() + 4;
    proof {
        assert(fuel as nat == doc_fuel(chars@.len() as int) as nat);
    }
    match skip_value(chars, i, fuel) {
        Some(j) => {
            let k = skip_ws(chars, j);
            k == chars.len()
        },
        None => false,
    }
}

/// Whether a member with the given key is present.
pub fn has_member(ms: &Vec<(Vec<char>, usize, usize)>, key: &str) -> (r: bool)
    ensures
        r == (spec_find_member(members_view(ms@), key@, 0) is Some),
{
    let keyc = crate::strutil::str_to_chars(key);
    match find_member_from(ms, &keyc, 0) {
        Some(_) => true,
        None => false,
    }
}

proof fn lemma_string_body_round_trip(
    pre: Seq<char>,
    s: Seq<char>,
    k: int,
    rest: Seq<char>,
    acc: Seq<char>,
)
    requires
        0 <= k <= s.len(),
    ensures
        ({
            let t = pre + escaped_from(s, k) + seq!['"'] + rest;
            spec_string_body(t, pre.len() as int, acc) == Some(
                (acc + s.subrange(k, s.len() as int), (pre.len() + escaped_from(s, k).len() + 1) as int),
            )
        }),
    decreases s.len() - k,
{
    let t = pre + escaped_from(s, k) + seq!['"'] + rest;
    if k == s.len() {
        assert(escaped_from(s, k) =~= Seq::<char>::empty());
        assert(t[pre.len() as int] == '"');
        assert(acc + s.subrange(k, s.len() as int) =~= acc);
    } else {
        let c = s[k];
        let e = escape_seq(c);
        assert(escaped_from(s, k) == e + escaped_from(s, k + 1));
        if c == '"' || c == '\\' || c == '\n' || c == '\t' || c == '\r' || c == '\u{8}' || c
            == '\u{c}' {
            assert(e.len() == 2 && e[0] == '\\');
            assert(e[1] != 'u');
            assert(t[pre.len() as int] == '\\');
            assert(t[pre.len() as int + 1] == e[1]);
            assert(unescape_char(e[1]) == Some(c));
            let pre2 = pre + seq!['\\', e[1]];
            assert(t =~= pre2 + escaped_from(s, k + 1) + seq!['"'] + rest);
            lemma_string_body_round_trip(pre2, s, k + 1, rest, acc.push(c));
            assert(acc.push(c) + s.subrange(k + 1, s.len() as int) =~= acc + s.subrange(
                k,
                s.len() as int,
            ));
        } else if (c as u32) < 0x20 {
            let v: u32 = c as u32;
            let i = pre.len() as int;
            assert(e.len() == 6 && e[0] == '\\' && e[1] == 'u' && e[2] == '0' && e[3] == '0');
            assert(e[4] == hex_digit_char((v / 16) as u32));
            assert(e[5] == hex_digit_char((v % 16) as u32));
            assert(t[i] == '\\');
            assert(t[i + 1] == 'u');
            assert(t[i + 2] == '0');
            assert(t[i + 3] == '0');
            assert(t[i + 4] == e[4]);
            assert(t[i + 5] == e[5]);
            assert(is_hex(e[4]) && hex_val(e[4]) == (v / 16) as u32);
            assert(is_hex(e[5]) && hex_val(e[5]) == (v % 16) as u32);
            assert(spec_hex4(t, i + 2) == Some(v as int));
            assert(spec_unicode_escape(t, i + 2) == Some((char_of(v), 4 as nat)));
            lemma_char_of(c);
            let pre2 = pre + e;
            assert(t =~= pre2 + escaped_from(s, k + 1) + seq!['"'] + rest);
            lemma_string_body_round_trip(pre2, s, k + 1, rest, acc.push(c));
            assert(acc.push(c) + s.subrange(k + 1, s.len() as int) =~= acc + s.subrange(
                k,
                s.len() as int,
            ));
        } else {
            assert(e =~= seq![c]);
            assert(t[pre.len() as int] == c);
            assert(c != '"' && c != '\\');
            let pre2 = pre + seq![c];
            assert(t =~= pre2 + escaped_from(s, k + 1) + seq!['"'] + rest);
            lemma_string_body_round_trip(pre2, s, k + 1, rest, acc.push(c));
            assert(acc.push(c) + s.subrange(k + 1, s.len() as int) =~= acc + s.subrange(
                k,
                s.len() as int,
            ));
        }
    }
}

/// A rendered string literal, wherever it stands in a larger text, decodes
/// back to exactly the characters it was rendered from, consuming exactly
/// its own length: every text field written by the manifest and request
/// writers is recovered unchanged by the reader.
pub proof fn lemma_json_string_round_trip(pre: Seq<char>, s: Seq<char>, rest: Seq<char>)
    ensures
        spec_parse_string(pre + spec_json_string(s) + rest, pre.len() as int) == Some(
            (s, (pre.len() + spec_json_string(s).len()) as int),
        ),
{
    let t = pre + spec_json_string(s) + rest;
    assert(t[pre.len() as int] == '"');
    let pre2 = pre + seq!['"'];
    assert(t =~= pre2 + escaped_from(s, 0) + seq!['"'] + rest);
    lemma_string_body_round_trip(pre2, s, 0, rest, Seq::empty());
    assert(Seq::<char>::empty() + s.subrange(0, s.len() as int) =~= s);
}

/// Every character of a rendered decimal number is a digit.
proof fn lemma_u64_digits_are_digits(m: u64)
    ensures
        u64_digits(m).len() >= 1,
        forall|j: int| 0 <= j < u64_digits(m).len() ==> is_digit(#[trigger] u64_digits(m)[j]),
    decreases m,
{
    if m < 10 {
    } else {
        lemma_u64_digits_are_digits(m / 10);
    }
}

/// The state the digit accumulator reaches after reading the digits of `m`
/// on top of `acc`.
spec fn digits_shift(acc: int, m: u64) -> int
    decreases m,
{
    if m < 10 {
        acc * 10 + m
    } else {
        digits_shift(acc, m / 10) * 10 + (m % 10)
    }
}

proof fn lemma_digits_shift_zero(m: u64)
    ensures
        digits_shift(0, m) == m,
    decreases m,
{
    if m < 10 {
    } else {
        lemma_digits_shift_zero(m / 10);
    }
}

proof fn lemma_digits_shift_nonneg(acc: u64, m: u64)
    ensures
        digits_shift(acc as int, m) >= 0,
    decreases m,
{
    if m < 10 {
    } else {
        lemma_digits_shift_nonneg(acc, m / 10);
    }
}

/// Reading the rendered digits of `m` advances the accumulator exactly as
/// `digits_shift` says, and consumes exactly those digits.
proof fn lemma_digits_parse(t: Seq<char>, i: int, m: u64, acc: u64)
    requires
        0 <= i,
        i + u64_digits(m).len() <= t.len(),
        t.subrange(i, i + u64_digits(m).len() as int) == u64_digits(m),
        digits_shift(acc as int, m) <= u64::MAX as int,
    ensures
        spec_u64_digits_from(t, i, acc) == spec_u64_digits_from(
            t,
            i + u64_digits(m).len(),
            digits_shift(acc as int, m) as u64,
        ),
    decreases m,
{
    lemma_u64_digits_are_digits(m);
    if m < 10 {
        assert(t[i] == u64_digits(m)[0]);
        assert(t[i] == digit_char(m));
        assert(is_digit(t[i]));
        assert(digit_val(t[i]) == m);
        assert(acc <= (u64::MAX - m) / 10);
    } else {
        let l1 = u64_digits(m / 10).len() as int;
        assert(u64_digits(m) == u64_digits(m / 10).push(digit_char(m % 10)));
        lemma_u64_digits_are_digits(m / 10);
        assert(t.subrange(i, i + l1) =~= u64_digits(m / 10)) by {
            assert(forall|j: int|
                0 <= j < l1 ==> t.subrange(i, i + u64_digits(m).len() as int)[j]
                    == #[trigger] t[i + j]);
        }
        lemma_digits_shift_nonneg(acc, m / 10);
        let s1 = digits_shift(acc as int, m / 10);
        assert(s1 * 10 + (m % 10) <= u64::MAX as int);
        assert(s1 <= u64::MAX as int);
        lemma_digits_parse(t, i, m / 10, acc);
        let mid = i + l1;
        assert(t[mid] == u64_digits(m)[l1]);
        assert(t[mid] == digit_char(m % 10));
        assert(is_digit(t[mid]));
        assert(digit_val(t[mid]) == m % 10);
        assert((s1 as u64) <= (u64::MAX - (m % 10) as u64) / 10);
        assert(spec_u64_digits_from(t, mid, s1 as u64) == spec_u64_digits_from(
            t,
            mid + 1,
            (s1 * 10 + (m % 10)) as u64,
        ));
    }
}

/// A rendered decimal number, wherever it stands in a larger text and
/// followed by anything but a digit, is decoded back to exactly the value
/// it was rendered from, consuming exactly its own digits: the integer
/// part of the save/load round trip.
pub proof fn lemma_u64_round_trip(pre: Seq<char>, n: u64, rest: Seq<char>)
    requires
        rest.len() == 0 || !is_digit(rest[0]),
    ensures
        spec_parse_u64(pre + u64_digits(n) + rest, pre.len() as int) == Some(
            (n, (pre.len() + u64_digits(n).len()) as int),
        ),
{
    let t = pre + u64_digits(n) + rest;
    let i = pre.len() as int;
    let l = u64_digits(n).len() as int;
    lemma_u64_digits_are_digits(n);
    assert(t[i] == u64_digits(n)[0]);
    assert(is_digit(t[i]));
    assert(t.subrange(i, i + l) =~= u64_digits(n));
    lemma_digits_shift_zero(n);
    lemma_digits_parse(t, i, n, 0);
    if rest.len() == 0 {
        assert(i + l == t.len());
    } else {
        assert(t[i + l] == rest[0]);
    }
    assert(spec_u64_digits_from(t, i + l, n) == Some((n, i + l)));
}

proof fn lemma_string_elems_round_trip(
    pre: Seq<char>,
    elems: Seq<Seq<char>>,
    k: int,
    rest: Seq<char>,
    acc: Seq<Seq<char>>,
    fuel: nat,
    first: bool,
)
    requires
        0 <= k < elems.len(),
        fuel >= elems.len() - k + 1,
    ensures
        ({
            let t = pre + spec_json_string(elems[k]) + arr_rest_text(elems, k + 1) + seq![']']
                + rest;
            spec_string_elems(t, pre.len() as int, fuel, first, acc) == Some(
                (
                    acc + elems.subrange(k, elems.len() as int),
                    (pre.len() + spec_json_string(elems[k]).len() + arr_rest_text(
                        elems,
                        k + 1,
                    ).len() + 1) as int,
                ),
            )
        }),
    decreases elems.len() - k,
{
    let t = pre + spec_json_string(elems[k]) + arr_rest_text(elems, k + 1) + seq![']'] + rest;
    let i = pre.len() as int;
    assert(t[i] == '"');
    assert(spec_skip_ws(t, i) == i);
    lemma_json_string_round_trip(pre, elems[k], arr_rest_text(elems, k + 1) + seq![']'] + rest);
    assert(t =~= pre + spec_json_string(elems[k]) + (arr_rest_text(elems, k + 1) + seq![']']
        + rest));
    let m = i + spec_json_string(elems[k]).len() as int;
    assert(spec_parse_string(t, i) == Some((elems[k], m)));
    if k + 1 < elems.len() {
        assert(arr_rest_text(elems, k + 1) == seq![','] + spec_json_string(elems[k + 1])
            + arr_rest_text(elems, k + 2));
        assert(t[m] == ',');
        assert(spec_skip_ws(t, m) == m);
        let pre2 = pre + spec_json_string(elems[k]) + seq![','];
        assert(t =~= pre2 + spec_json_string(elems[k + 1]) + arr_rest_text(elems, k + 2)
            + seq![']'] + rest);
        lemma_string_elems_round_trip(
            pre2,
            elems,
            k + 1,
            rest,
            acc.push(elems[k]),
            (fuel - 1) as nat,
            false,
        );
        assert(acc.push(elems[k]) + elems.subrange(k + 1, elems.len() as int) =~= acc
            + elems.subrange(k, elems.len() as int));
    } else {
        assert(arr_rest_text(elems, k + 1) =~= Seq::<char>::empty());
        assert(t[m] == ']');
        assert(spec_skip_ws(t, m) == m);
        assert(acc.push(elems[k]) =~= acc + elems.subrange(k, elems.len() as int));
    }
}

/// A rendered array of string literals, wherever it stands in a larger
/// text, is decoded back to exactly the strings it was rendered from,
/// consuming exactly its own length: the string-array part of the
/// save/load round trip.
pub proof fn lemma_string_array_round_trip(
    pre: Seq<char>,
    elems: Seq<Seq<char>>,
    rest: Seq<char>,
    fuel: nat,
)
    requires
        fuel >= elems.len() + 1,
    ensures
        ({
            let t = pre + spec_string_array_text(elems) + rest;
            t[pre.len() as int] == '[' && spec_string_elems(
                t,
                pre.len() as int + 1,
                fuel,
                true,
                Seq::empty(),
            ) == Some((elems, (pre.len() + spec_string_array_text(elems).len()) as int))
        }),
{
    let t = pre + spec_string_array_text(elems) + rest;
    let i = pre.len() as int;
    assert(t[i] == '[');
    if elems.len() == 0 {
        assert(t[i + 1] == ']');
        assert(spec_skip_ws(t, i + 1) == i + 1);
        assert(Seq::<Seq<char>>::empty() =~= elems);
    } else {
        let pre2 = pre + seq!['['];
        assert(t =~= pre2 + spec_json_string(elems[0]) + arr_rest_text(elems, 1) + seq![']']
            + rest);
        lemma_string_elems_round_trip(pre2, elems, 0, rest, Seq::empty(), fuel, true);
        assert(Seq::<Seq<char>>::empty() + elems.subrange(0, elems.len() as int) =~= elems);
    }
}

} // verus!
