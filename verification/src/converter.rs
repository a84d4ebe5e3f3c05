use vstd::prelude::*;

use crate::cache::GlobalCache;
use crate::error::Error;
use crate::models::{Channel, Emoji, Role, Server, User};
use crate::text::{chars_of, join, join_strings, lemma_join_split, lemma_split_nonempty, split_spaces, str_eq, views};
use crate::words::Words;

verus! {

/// What std's `str::to_lowercase` gives for `s`.
pub uninterp spec fn lowercase(s: Seq<char>) -> Seq<char>;

/// Lowercases `s` through `str::to_lowercase`.
///
/// The result is named, not stated: the Unicode case mapping it applies is
/// the standard library's.
#[verifier::external_body]
fn to_lowercase(s: &str) -> (r: String)
    ensures
        r@ == lowercase(s@),
{
    s.to_lowercase()
}

/// The text of capture group `group` when the regular expression `pattern`
/// matches `haystack`; `None` when the pattern does not compile, does not
/// match, or the group took no part in the match.
pub uninterp spec fn regex_group(pattern: Seq<char>, haystack: Seq<char>, group: nat) -> Option<Seq<char>>;

/// A character of the character class `[0123456789ABCDEFGHJKMNPQRSTVWXYZ]`.
pub open spec fn id_char(c: char) -> bool {
    ||| ('0' <= c && c <= '9')
    ||| ('A' <= c && c <= 'H')
    ||| c == 'J'
    ||| c == 'K'
    ||| c == 'M'
    ||| c == 'N'
    ||| ('P' <= c && c <= 'T')
    ||| ('V' <= c && c <= 'Z')
}

/// The 26 identifier characters of `h`, when `h` is exactly `open`, 26
/// characters of the class, and `close`.
pub open spec fn delimited_id(h: Seq<char>, open: Seq<char>, close: Seq<char>) -> Option<Seq<char>> {
    if h.len() == open.len() + 26 + close.len()
        && h.take(open.len() as int) == open
        && h.skip(open.len() + 26 as int) == close
        && forall|i: int| open.len() <= i < open.len() + 26 ==> id_char(#[trigger] h[i]) {
        Some(h.subrange(open.len() as int, open.len() + 26 as int))
    } else {
        None
    }
}

/// The opening and closing texts of the anchored patterns that read one
/// identifier: `^` then the opening, the group `([0123456789ABCDEFGHJKMNPQRSTVWXYZ]{26})`,
/// the closing, then `$`.
pub open spec fn anchored_id_pattern(p: Seq<char>) -> Option<(Seq<char>, Seq<char>)> {
    if p == "^<@([0123456789ABCDEFGHJKMNPQRSTVWXYZ]{26})>$"@ {
        Some(("<@"@, ">"@))
    } else if p == "^<#([0123456789ABCDEFGHJKMNPQRSTVWXYZ]{26})>$"@ {
        Some(("<#"@, ">"@))
    } else if p == "^<%([0123456789ABCDEFGHJKMNPQRSTVWXYZ]{26})>$"@ {
        Some(("<%"@, ">"@))
    } else if p == "^:([0123456789ABCDEFGHJKMNPQRSTVWXYZ]{26}):$"@ {
        Some((":"@, ":"@))
    } else if p == "^([0123456789ABCDEFGHJKMNPQRSTVWXYZ]{26})$"@ {
        Some((""@, ""@))
    } else {
        None
    }
}

/// Runs a regular expression through the `regex` crate and returns one capture group.
///
/// The result is named. For the patterns that read an identifier of 26
/// upper-case base 32 characters between a fixed opening and closing text,
/// anchored at both ends, it is also stated: the 26 characters, when the whole
/// text is the opening, those characters and the closing.
#[verifier::external_body]
fn capture_group(pattern: &str, haystack: &str, group: usize) -> (r: Option<String>)
    ensures
        r matches Some(s) ==> regex_group(pattern@, haystack@, group as nat) == Some(s@),
        r is None <==> regex_group(pattern@, haystack@, group as nat) is None,
        group == 1 ==> match anchored_id_pattern(pattern@) {
            Some((open, close)) => match r {
                Some(s) => delimited_id(haystack@, open, close) == Some(s@),
                None => delimited_id(haystack@, open, close) is None,
            },
            None => true,
        },
{
    let re = match regex::Regex::new(pattern) {
        Ok(re) => re,
        Err(_) => return None,
    };
    match re.captures(haystack) {
        Some(c) => match c.get(group) {
            Some(m) => Some(m.as_str().to_string()),
            None => None,
        },
        None => None,
    }
}

/// Words that read as "true".
pub open spec fn is_truthy(s: Seq<char>) -> bool {
    ||| s == "yes"@
    ||| s == "y"@
    ||| s == "true"@
    ||| s == "t"@
    ||| s == "1"@
    ||| s == "enable"@
    ||| s == "enabled"@
    ||| s == "on"@
}

/// Words that read as "false".
pub open spec fn is_falsy(s: Seq<char>) -> bool {
    ||| s == "no"@
    ||| s == "n"@
    ||| s == "false"@
    ||| s == "f"@
    ||| s == "0"@
    ||| s == "disable"@
    ||| s == "disabled"@
    ||| s == "off"@
}

/// The words `convert_bool` reads: each of `no`, `n`, `false`, `f`, `0`,
/// `disable`, `disabled` and `off` reads as false and not as true, and each of
/// `yes`, `y`, `true`, `t`, `1`, `enable`, `enabled` and `on` reads as true.
pub proof fn lemma_bool_words(w: Seq<char>)
    ensures
        (w == "no"@ || w == "n"@ || w == "false"@ || w == "f"@ || w == "0"@ || w == "disable"@ || w == "disabled"@ || w == "off"@) ==> is_falsy(w) && !is_truthy(w),
        (w == "yes"@ || w == "y"@ || w == "true"@ || w == "t"@ || w == "1"@ || w == "enable"@ || w == "enabled"@ || w == "on"@) ==> is_truthy(w),
{
    reveal_strlit("yes");
    reveal_strlit("y");
    reveal_strlit("true");
    reveal_strlit("t");
    reveal_strlit("1");
    reveal_strlit("enable");
    reveal_strlit("enabled");
    reveal_strlit("on");
    reveal_strlit("no");
    reveal_strlit("n");
    reveal_strlit("false");
    reveal_strlit("f");
    reveal_strlit("0");
    reveal_strlit("disable");
    reveal_strlit("disabled");
    reveal_strlit("off");
    if w == "no"@ || w == "n"@ || w == "false"@ || w == "f"@ || w == "0"@ || w == "disable"@ || w == "disabled"@ || w == "off"@ {
        if w.len() == 2 {
            assert(w[0] != ("on"@)[0]);
        }
        if w.len() == 1 {
            assert(w[0] != ("y"@)[0] && w[0] != ("t"@)[0] && w[0] != ("1"@)[0]);
        }
        if w.len() == 7 {
            assert(w[0] != ("enabled"@)[0]);
        }
        if w.len() == 8 {
            assert(w[0] != ("disabled"@)[0] || w == "disabled"@);
        }
        if w.len() == 3 {
            assert(w[0] != ("yes"@)[0]);
        }
        if w.len() == 5 {
            assert(w[0] != ("false"@)[0] || w == "false"@);
        }
        if w.len() == 4 {
            assert(w[0] != ("true"@)[0]);
        }
        if w.len() == 6 {
            assert(w[0] != ("enable"@)[0]);
        }
    }
}

/// Reads a yes/no word, in any case.
pub fn convert_bool(input: &str) -> (r: Result<bool, Error>)
    ensures
        (lowercase(input@) == "yes"@ || lowercase(input@) == "y"@ || lowercase(input@) == "true"@ || lowercase(input@) == "t"@ || lowercase(input@) == "1"@ || lowercase(input@) == "enable"@ || lowercase(input@) == "enabled"@ || lowercase(input@) == "on"@) ==> r == Ok::<bool, Error>(true),
        (lowercase(input@) == "no"@ || lowercase(input@) == "n"@ || lowercase(input@) == "false"@ || lowercase(input@) == "f"@ || lowercase(input@) == "0"@ || lowercase(input@) == "disable"@ || lowercase(input@) == "disabled"@ || lowercase(input@) == "off"@) ==> r == Ok::<bool, Error>(false),
        is_truthy(lowercase(input@)) ==> r == Ok::<bool, Error>(true),
        !is_truthy(lowercase(input@)) && is_falsy(lowercase(input@)) ==> r == Ok::<bool, Error>(false),
        !is_truthy(lowercase(input@)) && !is_falsy(lowercase(input@)) ==> (r matches Err(Error::ConverterError(m)) && m@ == "Bad boolean value"@),
{
    proof {
        lemma_bool_words(lowercase(input@));
    }
    let l = to_lowercase(input);
    let s = l.as_str();
    if str_eq(s, "yes") || str_eq(s, "y") || str_eq(s, "true") || str_eq(s, "t") || str_eq(s, "1")
        || str_eq(s, "enable") || str_eq(s, "enabled") || str_eq(s, "on") {
        Ok(true)
    } else if str_eq(s, "no") || str_eq(s, "n") || str_eq(s, "false") || str_eq(s, "f") || str_eq(s, "0")
        || str_eq(s, "disable") || str_eq(s, "disabled") || str_eq(s, "off") {
        Ok(false)
    } else {
        Err(Error::ConverterError(String::from_str("Bad boolean value")))
    }
}

/// Why a decimal integer could not be read.
#[derive(Debug, Clone, Copy, PartialEq, Eq)]
pub enum IntErrorKind {
    Empty,
    InvalidDigit,
    PosOverflow,
    NegOverflow,
}

/// The message that std gives for each reason an integer could not be read.
pub open spec fn int_error_message(k: IntErrorKind) -> Seq<char> {
    match k {
        IntErrorKind::Empty => "cannot parse integer from empty string"@,
        IntErrorKind::InvalidDigit => "invalid digit found in string"@,
        IntErrorKind::PosOverflow => "number too large to fit in target type"@,
        IntErrorKind::NegOverflow => "number too small to fit in target type"@,
    }
}

/// The value of a decimal digit.
pub open spec fn decimal_digit(c: char) -> Option<int> {
    if '0' <= c && c <= '9' {
        Some(c as int - '0' as int)
    } else {
        None
    }
}

/// Reads the digits of `ds` from position `i` on into `acc`, left to right, as
/// std does: a character that is no digit stops the reading with `InvalidDigit`,
/// a step that leaves `[min, max]` with an overflow.
pub open spec fn scan_digits(ds: Seq<char>, i: int, acc: int, neg: bool, min: int, max: int) -> Result<int, IntErrorKind>
    decreases ds.len() - i,
{
    if i < 0 || i >= ds.len() {
        Ok(acc)
    } else {
        match decimal_digit(ds[i]) {
            None => Err(IntErrorKind::InvalidDigit),
            Some(d) => {
                let v = if neg { acc * 10 - d } else { acc * 10 + d };
                if v > max {
                    Err(IntErrorKind::PosOverflow)
                } else if v < min {
                    Err(IntErrorKind::NegOverflow)
                } else {
                    scan_digits(ds, i + 1, v, neg, min, max)
                }
            },
        }
    }
}

/// Reads a decimal integer in `[min, max]` as std's `from_str` does: an
/// optional sign (a minus only when `signed`), then digits only.
pub open spec fn parse_int(s: Seq<char>, signed: bool, min: int, max: int) -> Result<int, IntErrorKind> {
    if s.len() == 0 {
        Err(IntErrorKind::Empty)
    } else if (s[0] == '+' || s[0] == '-') && s.len() == 1 {
        Err(IntErrorKind::InvalidDigit)
    } else if s[0] == '+' {
        scan_digits(s, 1, 0, false, min, max)
    } else if s[0] == '-' && signed {
        scan_digits(s, 1, 0, true, min, max)
    } else {
        scan_digits(s, 0, 0, false, min, max)
    }
}

proof fn lemma_scan_range(ds: Seq<char>, i: int, acc: int, neg: bool, min: int, max: int)
    requires
        min <= acc <= max,
    ensures
        scan_digits(ds, i, acc, neg, min, max) matches Ok(v) ==> min <= v <= max,
    decreases ds.len() - i,
{
    if 0 <= i < ds.len() {
        if let Some(d) = decimal_digit(ds[i]) {
            let v = if neg { acc * 10 - d } else { acc * 10 + d };
            if min <= v <= max {
                lemma_scan_range(ds, i + 1, v, neg, min, max);
            }
        }
    }
}

/// A read integer lies in the range it was read for.
pub proof fn lemma_parse_range(s: Seq<char>, signed: bool, min: int, max: int)
    requires
        min <= 0 <= max,
    ensures
        parse_int(s, signed, min, max) matches Ok(v) ==> min <= v <= max,
{
    lemma_scan_range(s, 0, 0, false, min, max);
    lemma_scan_range(s, 1, 0, false, min, max);
    lemma_scan_range(s, 1, 0, true, min, max);
}

fn digit_of(c: char) -> (r: Option<u8>)
    ensures
        r matches Some(d) ==> decimal_digit(c) == Some(d as int),
        r is None <==> decimal_digit(c) is None,
{
    if '0' <= c && c <= '9' {
        Some((c as u32 - '0' as u32) as u8)
    } else {
        None
    }
}

/// Reads a decimal integer no greater than `max`, with an optional plus sign.
pub fn parse_unsigned(s: &str, max: u128) -> (r: Result<u128, IntErrorKind>)
    ensures
        match parse_int(s@, false, 0, max as int) {
            Ok(v) => r == Ok::<u128, IntErrorKind>(v as u128),
            Err(k) => r == Err::<u128, IntErrorKind>(k),
        },
{
    let cs = chars_of(s);
    let n = cs.len();
    if n == 0 {
        return Err(IntErrorKind::Empty);
    }
    if (cs[0] == '+' || cs[0] == '-') && n == 1 {
        return Err(IntErrorKind::InvalidDigit);
    }
    let mut i: usize = if cs[0] == '+' { 1 } else { 0 };
    let ghost start = i as int;
    let mut acc: u128 = 0;
    assert(parse_int(s@, false, 0, max as int) == scan_digits(s@, start, 0, false, 0, max as int));
    while i < n
        invariant
            cs@ == s@,
            n == cs@.len(),
            i <= n,
            acc <= max,
            parse_int(s@, false, 0, max as int) == scan_digits(s@, start, 0, false, 0, max as int),
            scan_digits(s@, i as int, acc as int, false, 0, max as int) == scan_digits(s@, start, 0, false, 0, max as int),
        decreases n - i,
    {
        let d = match digit_of(cs[i]) {
            Some(d) => d,
            None => {
                assert(scan_digits(s@, i as int, acc as int, false, 0, max as int) == Err::<int, IntErrorKind>(IntErrorKind::InvalidDigit));
                return Err(IntErrorKind::InvalidDigit);
            },
        };
        assert(decimal_digit(s@[i as int]) == Some(d as int));
        let v = match acc.checked_mul(10) {
            Some(m) => m.checked_add(d as u128),
            None => None,
        };
        proof {
            if v is None {
                assert(acc * 10 + d > max);
                assert(scan_digits(s@, i as int, acc as int, false, 0, max as int) == Err::<int, IntErrorKind>(IntErrorKind::PosOverflow));
            } else {
                assert(v->0 == acc * 10 + d);
            }
        }
        match v {
            Some(v) => {
                if v > max {
                    return Err(IntErrorKind::PosOverflow);
                }
                acc = v;
            },
            None => {
                return Err(IntErrorKind::PosOverflow);
            },
        }
        i = i + 1;
    }
    assert(scan_digits(s@, i as int, acc as int, false, 0, max as int) == Ok::<int, IntErrorKind>(acc as int));
    Ok(acc)
}

/// Reads a decimal integer in `[min, max]`, with an optional sign.
pub fn parse_signed(s: &str, min: i128, max: i128) -> (r: Result<i128, IntErrorKind>)
    requires
        min <= 0 <= max,
    ensures
        match parse_int(s@, true, min as int, max as int) {
            Ok(v) => r == Ok::<i128, IntErrorKind>(v as i128),
            Err(k) => r == Err::<i128, IntErrorKind>(k),
        },
{
    let cs = chars_of(s);
    let n = cs.len();
    if n == 0 {
        return Err(IntErrorKind::Empty);
    }
    if (cs[0] == '+' || cs[0] == '-') && n == 1 {
        return Err(IntErrorKind::InvalidDigit);
    }
    let neg = cs[0] == '-';
    let mut i: usize = if cs[0] == '+' || cs[0] == '-' { 1 } else { 0 };
    let ghost start = i as int;
    let mut acc: i128 = 0;
    assert(parse_int(s@, true, min as int, max as int) == scan_digits(s@, start, 0, neg, min as int, max as int));
    while i < n
        invariant
            cs@ == s@,
            n == cs@.len(),
            i <= n,
            min <= acc <= max,
            min <= 0 <= max,
            neg ==> acc <= 0,
            !neg ==> acc >= 0,
            parse_int(s@, true, min as int, max as int) == scan_digits(s@, start, 0, neg, min as int, max as int),
            scan_digits(s@, i as int, acc as int, neg, min as int, max as int) == scan_digits(s@, start, 0, neg, min as int, max as int),
        decreases n - i,
    {
        let d = match digit_of(cs[i]) {
            Some(d) => d,
            None => {
                assert(scan_digits(s@, i as int, acc as int, neg, min as int, max as int) == Err::<int, IntErrorKind>(IntErrorKind::InvalidDigit));
                return Err(IntErrorKind::InvalidDigit);
            },
        };
        assert(decimal_digit(s@[i as int]) == Some(d as int));
        let v = match acc.checked_mul(10) {
            Some(m) => if neg { m.checked_sub(d as i128) } else { m.checked_add(d as i128) },
            None => None,
        };
        proof {
            let w: int = if neg { acc * 10 - d } else { acc * 10 + d };
            if v is None {
                if neg {
                    assert(acc * 10 - d < i128::MIN || acc * 10 < i128::MIN) by (nonlinear_arith)
                        requires
                            acc <= 0,
                            0 <= d <= 9,
                            acc * 10 - d < i128::MIN || acc * 10 - d > i128::MAX || acc * 10 < i128::MIN || acc * 10 > i128::MAX,
                    ;
                    assert(w < min) by (nonlinear_arith)
                        requires
                            w == acc * 10 - d,
                            0 <= d <= 9,
                            min >= i128::MIN,
                            acc * 10 - d < i128::MIN || acc * 10 < i128::MIN,
                    ;
                } else {
                    assert(acc * 10 + d > i128::MAX || acc * 10 > i128::MAX) by (nonlinear_arith)
                        requires
                            acc >= 0,
                            0 <= d <= 9,
                            acc * 10 + d < i128::MIN || acc * 10 + d > i128::MAX || acc * 10 < i128::MIN || acc * 10 > i128::MAX,
                    ;
                    assert(w > max) by (nonlinear_arith)
                        requires
                            w == acc * 10 + d,
                            0 <= d <= 9,
                            max <= i128::MAX,
                            acc * 10 + d > i128::MAX || acc * 10 > i128::MAX,
                    ;
                }
            } else {
                assert(v->0 == w);
            }
        }
        match v {
            Some(v) => {
                if v > max {
                    return Err(IntErrorKind::PosOverflow);
                }
                if v < min {
                    return Err(IntErrorKind::NegOverflow);
                }
                acc = v;
            },
            None => {
                if neg {
                    return Err(IntErrorKind::NegOverflow);
                } else {
                    return Err(IntErrorKind::PosOverflow);
                }
            },
        }
        i = i + 1;
    }
    assert(scan_digits(s@, i as int, acc as int, neg, min as int, max as int) == Ok::<int, IntErrorKind>(acc as int));
    Ok(acc)
}


/// The converter error for an integer that could not be read.
fn int_error(k: IntErrorKind) -> (r: Error)
    ensures
        r matches Error::ConverterError(m) && m@ == int_error_message(k),
{
    let m = match k {
        IntErrorKind::Empty => "cannot parse integer from empty string",
        IntErrorKind::InvalidDigit => "invalid digit found in string",
        IntErrorKind::PosOverflow => "number too large to fit in target type",
        IntErrorKind::NegOverflow => "number too small to fit in target type",
    };
    Error::ConverterError(String::from_str(m))
}

/// `r` is what converting text that reads as `parsed` gives.
pub open spec fn int_outcome<T>(r: Result<T, Error>, parsed: Result<int, IntErrorKind>, value: spec_fn(T) -> int) -> bool {
    match parsed {
        Ok(v) => r matches Ok(x) && value(x) == v,
        Err(k) => r matches Err(Error::ConverterError(m)) && m@ == int_error_message(k),
    }
}

/// Reads a `u8` written in decimal.
pub fn convert_u8(input: &str) -> (r: Result<u8, Error>)
    ensures
        int_outcome(r, parse_int(input@, false, 0, u8::MAX as int), |x: u8| x as int),
{
    proof {
        lemma_parse_range(input@, false, 0, u8::MAX as int);
    }
    match parse_unsigned(input, u8::MAX as u128) {
        Ok(v) => Ok(v as u8),
        Err(k) => Err(int_error(k)),
    }
}

/// Reads a `u16` written in decimal.
pub fn convert_u16(input: &str) -> (r: Result<u16, Error>)
    ensures
        int_outcome(r, parse_int(input@, false, 0, u16::MAX as int), |x: u16| x as int),
{
    proof {
        lemma_parse_range(input@, false, 0, u16::MAX as int);
    }
    match parse_unsigned(input, u16::MAX as u128) {
        Ok(v) => Ok(v as u16),
        Err(k) => Err(int_error(k)),
    }
}

/// Reads a `u32` written in decimal.
pub fn convert_u32(input: &str) -> (r: Result<u32, Error>)
    ensures
        int_outcome(r, parse_int(input@, false, 0, u32::MAX as int), |x: u32| x as int),
{
    proof {
        lemma_parse_range(input@, false, 0, u32::MAX as int);
    }
    match parse_unsigned(input, u32::MAX as u128) {
        Ok(v) => Ok(v as u32),
        Err(k) => Err(int_error(k)),
    }
}

/// Reads a `u64` written in decimal.
pub fn convert_u64(input: &str) -> (r: Result<u64, Error>)
    ensures
        int_outcome(r, parse_int(input@, false, 0, u64::MAX as int), |x: u64| x as int),
{
    proof {
        lemma_parse_range(input@, false, 0, u64::MAX as int);
    }
    match parse_unsigned(input, u64::MAX as u128) {
        Ok(v) => Ok(v as u64),
        Err(k) => Err(int_error(k)),
    }
}

/// Reads a `u128` written in decimal.
pub fn convert_u128(input: &str) -> (r: Result<u128, Error>)
    ensures
        int_outcome(r, parse_int(input@, false, 0, u128::MAX as int), |x: u128| x as int),
{
    proof {
        lemma_parse_range(input@, false, 0, u128::MAX as int);
    }
    match parse_unsigned(input, u128::MAX as u128) {
        Ok(v) => Ok(v as u128),
        Err(k) => Err(int_error(k)),
    }
}

/// Reads a `i8` written in decimal.
pub fn convert_i8(input: &str) -> (r: Result<i8, Error>)
    ensures
        int_outcome(r, parse_int(input@, true, i8::MIN as int, i8::MAX as int), |x: i8| x as int),
{
    proof {
        lemma_parse_range(input@, true, i8::MIN as int, i8::MAX as int);
    }
    match parse_signed(input, i8::MIN as i128, i8::MAX as i128) {
        Ok(v) => Ok(v as i8),
        Err(k) => Err(int_error(k)),
    }
}

/// Reads a `i16` written in decimal.
pub fn convert_i16(input: &str) -> (r: Result<i16, Error>)
    ensures
        int_outcome(r, parse_int(input@, true, i16::MIN as int, i16::MAX as int), |x: i16| x as int),
{
    proof {
        lemma_parse_range(input@, true, i16::MIN as int, i16::MAX as int);
    }
    match parse_signed(input, i16::MIN as i128, i16::MAX as i128) {
        Ok(v) => Ok(v as i16),
        Err(k) => Err(int_error(k)),
    }
}

/// Reads a `i32` written in decimal.
pub fn convert_i32(input: &str) -> (r: Result<i32, Error>)
    ensures
        int_outcome(r, parse_int(input@, true, i32::MIN as int, i32::MAX as int), |x: i32| x as int),
{
    proof {
        lemma_parse_range(input@, true, i32::MIN as int, i32::MAX as int);
    }
    match parse_signed(input, i32::MIN as i128, i32::MAX as i128) {
        Ok(v) => Ok(v as i32),
        Err(k) => Err(int_error(k)),
    }
}

/// Reads a `i64` written in decimal.
pub fn convert_i64(input: &str) -> (r: Result<i64, Error>)
    ensures
        int_outcome(r, parse_int(input@, true, i64::MIN as int, i64::MAX as int), |x: i64| x as int),
{
    proof {
        lemma_parse_range(input@, true, i64::MIN as int, i64::MAX as int);
    }
    match parse_signed(input, i64::MIN as i128, i64::MAX as i128) {
        Ok(v) => Ok(v as i64),
        Err(k) => Err(int_error(k)),
    }
}

/// Reads a `i128` written in decimal.
pub fn convert_i128(input: &str) -> (r: Result<i128, Error>)
    ensures
        int_outcome(r, parse_int(input@, true, i128::MIN as int, i128::MAX as int), |x: i128| x as int),
{
    proof {
        lemma_parse_range(input@, true, i128::MIN as int, i128::MAX as int);
    }
    match parse_signed(input, i128::MIN as i128, i128::MAX as i128) {
        Ok(v) => Ok(v as i128),
        Err(k) => Err(int_error(k)),
    }
}

/// The forms of reference that name a model in a message.
#[derive(Debug, Clone, Copy, PartialEq, Eq)]
pub enum MentionKind {
    User,
    Channel,
    Role,
    Emoji,
}

/// The pattern of a bare identifier.
pub open spec fn id_pattern() -> Seq<char> {
    "^([0123456789ABCDEFGHJKMNPQRSTVWXYZ]{26})$"@
}

/// The pattern of a reference of the given form.
pub open spec fn mention_pattern(kind: MentionKind) -> Seq<char> {
    match kind {
        MentionKind::User => "^<@([0123456789ABCDEFGHJKMNPQRSTVWXYZ]{26})>$"@,
        MentionKind::Channel => "^<#([0123456789ABCDEFGHJKMNPQRSTVWXYZ]{26})>$"@,
        MentionKind::Role => "^<%([0123456789ABCDEFGHJKMNPQRSTVWXYZ]{26})>$"@,
        MentionKind::Emoji => "^:([0123456789ABCDEFGHJKMNPQRSTVWXYZ]{26}):$"@,
    }
}

fn pattern_of(kind: MentionKind) -> (r: &'static str)
    ensures
        r@ == mention_pattern(kind),
{
    match kind {
        MentionKind::User => "^<@([0123456789ABCDEFGHJKMNPQRSTVWXYZ]{26})>$",
        MentionKind::Channel => "^<#([0123456789ABCDEFGHJKMNPQRSTVWXYZ]{26})>$",
        MentionKind::Role => "^<%([0123456789ABCDEFGHJKMNPQRSTVWXYZ]{26})>$",
        MentionKind::Emoji => "^:([0123456789ABCDEFGHJKMNPQRSTVWXYZ]{26}):$",
    }
}

/// The opening and closing texts of a reference of the given form.
pub open spec fn mention_delimiters(kind: MentionKind) -> (Seq<char>, Seq<char>) {
    match kind {
        MentionKind::User => ("<@"@, ">"@),
        MentionKind::Channel => ("<#"@, ">"@),
        MentionKind::Role => ("<%"@, ">"@),
        MentionKind::Emoji => (":"@, ":"@),
    }
}

/// The identifier that `input` names: by a reference of the given form, or bare.
pub open spec fn mentioned_id(kind: MentionKind, input: Seq<char>) -> Option<Seq<char>> {
    match delimited_id(input, mention_delimiters(kind).0, mention_delimiters(kind).1) {
        Some(id) => Some(id),
        None => delimited_id(input, ""@, ""@),
    }
}

/// Reads the identifier out of a reference of the given form, or out of a bare identifier.
pub fn mention_id(kind: MentionKind, input: &str) -> (r: Option<String>)
    ensures
        r matches Some(s) ==> mentioned_id(kind, input@) == Some(s@),
        r is None <==> mentioned_id(kind, input@) is None,
{
    proof {
        reveal_strlit("^<@([0123456789ABCDEFGHJKMNPQRSTVWXYZ]{26})>$");
        reveal_strlit("^<#([0123456789ABCDEFGHJKMNPQRSTVWXYZ]{26})>$");
        reveal_strlit("^<%([0123456789ABCDEFGHJKMNPQRSTVWXYZ]{26})>$");
        reveal_strlit("^:([0123456789ABCDEFGHJKMNPQRSTVWXYZ]{26}):$");
        reveal_strlit("^([0123456789ABCDEFGHJKMNPQRSTVWXYZ]{26})$");
        reveal_strlit("<@");
        reveal_strlit("<#");
        reveal_strlit("<%");
        reveal_strlit(":");
        reveal_strlit(">");
        reveal_strlit("");
    }
    let p = pattern_of(kind);
    proof {
        match kind {
            MentionKind::User => {},
            MentionKind::Channel => {
                assert(p@[2] != ("^<@([0123456789ABCDEFGHJKMNPQRSTVWXYZ]{26})>$"@)[2]);
            },
            MentionKind::Role => {
                assert(p@[2] != ("^<@([0123456789ABCDEFGHJKMNPQRSTVWXYZ]{26})>$"@)[2]);
                assert(p@[2] != ("^<#([0123456789ABCDEFGHJKMNPQRSTVWXYZ]{26})>$"@)[2]);
            },
            MentionKind::Emoji => {
                assert(p@[1] != ("^<@([0123456789ABCDEFGHJKMNPQRSTVWXYZ]{26})>$"@)[1]);
                assert(p@[1] != ("^<#([0123456789ABCDEFGHJKMNPQRSTVWXYZ]{26})>$"@)[1]);
                assert(p@[1] != ("^<%([0123456789ABCDEFGHJKMNPQRSTVWXYZ]{26})>$"@)[1]);
            },
        }
    }
    assert(anchored_id_pattern(p@) == Some(mention_delimiters(kind)));
    match capture_group(p, input, 1) {
        Some(id) => Some(id),
        None => {
            let bare = "^([0123456789ABCDEFGHJKMNPQRSTVWXYZ]{26})$";
            assert(bare@[1] != ("^<@([0123456789ABCDEFGHJKMNPQRSTVWXYZ]{26})>$"@)[1]);
            assert(bare@[1] != ("^<#([0123456789ABCDEFGHJKMNPQRSTVWXYZ]{26})>$"@)[1]);
            assert(bare@[1] != ("^<%([0123456789ABCDEFGHJKMNPQRSTVWXYZ]{26})>$"@)[1]);
            assert(bare@[1] != ("^:([0123456789ABCDEFGHJKMNPQRSTVWXYZ]{26}):$"@)[1]);
            assert(anchored_id_pattern(bare@) == Some((""@, ""@)));
            capture_group(bare, input, 1)
        },
    }
}

/// Everything after the cursor, as one argument.
pub struct ConsumeRest(pub String);

/// The rest of the words of a text, taken from the start, gives back the whole text:
/// the words are there (a splitting has at least one piece), and joining them
/// again with single spaces restores every character.
pub proof fn lemma_consume_rest_whole(s: Seq<char>)
    ensures
        0 < split_spaces(s).len(),
        join(split_spaces(s).skip(0), " "@) == s,
{
    lemma_split_nonempty(s);
    assert(split_spaces(s).skip(0) =~= split_spaces(s));
    lemma_join_split(s);
}

impl ConsumeRest {
    /// Takes every word from the cursor on, joined again with single spaces;
    /// the cursor moves past the last word.
    pub fn from_words(words: &mut Words) -> (r: ConsumeRest)
        ensures
            final(words)@.0 == old(words)@.0,
            final(words)@.1 == old(words)@.0.len(),
            r.0@ == join(
                if old(words)@.1 < old(words)@.0.len() {
                    old(words)@.0.skip(old(words)@.1 as int)
                } else {
                    Seq::<Seq<char>>::empty()
                },
                " "@,
            ),
    {
        let rest = words.rest();
        ConsumeRest(join_strings(&rest, " "))
    }
}

/// `convert` can give `out` when handed a string whose text is `word`.
pub open spec fn converts_to<T, F: Fn(String) -> Option<T>>(convert: F, word: Seq<char>, out: Option<T>) -> bool {
    exists|s: String| s@ == word && call_ensures(convert, (s,), out)
}

/// As many arguments as convert, one after the other.
pub struct Greedy<T>(pub Vec<T>);

impl<T> Greedy<T> {
    /// Converts words from the cursor on until one does not convert; the cursor
    /// stays on that word. When the words run out, the cursor ends one past the
    /// end, as a last `next` leaves it.
    pub fn from_words<F: Fn(String) -> Option<T>>(words: &mut Words, convert: F) -> (r: Greedy<T>)
        requires
            forall|s: String| call_requires(convert, (s,)),
        ensures
            final(words)@.0 == old(words)@.0,
            forall|i: int| 0 <= i < r.0@.len() ==> converts_to(convert, old(words)@.0[old(words)@.1 + i], Some(#[trigger] r.0@[i])),
            ({
                let end = old(words)@.1 + r.0@.len();
                if end < old(words)@.0.len() {
                    &&& final(words)@.1 == end
                    &&& converts_to(convert, old(words)@.0[end], None)
                } else {
                    &&& old(words)@.1 as int + r.0@.len() <= old(words)@.0.len() || r.0@.len() == 0
                    &&& final(words)@.1 == crate::words::step_forward(end as usize)
                }
            }),
    {
        let ghost ws = words@.0;
        let ghost start = words@.1;
        let mut out: Vec<T> = Vec::new();
        proof {
            words.lemma_len_fits();
        }
        loop
            invariant
                words@.0 == ws,
                ws == old(words)@.0,
                start == old(words)@.1,
                ws.len() <= usize::MAX,
                forall|s: String| call_requires(convert, (s,)),
                words@.1 == start + out@.len(),
                start + out@.len() <= ws.len() || out@.len() == 0,
                forall|i: int| 0 <= i < out@.len() ==> converts_to(convert, ws[start + i], Some(#[trigger] out@[i])),
            decreases ws.len() - words@.1,
        {
            match words.next() {
                Some(arg) => {
                    let ghost a = arg;
                    match convert(arg) {
                        Some(v) => {
                            let ghost before = out@;
                            out.push(v);
                            assert forall|i: int| 0 <= i < out@.len() implies converts_to(convert, ws[start + i], Some(#[trigger] out@[i])) by {
                                if i < before.len() {
                                    assert(out@[i] == before[i]);
                                } else {
                                    assert(a@ == ws[start + i]);
                                }
                            }
                        },
                        None => {
                            words.undo();
                            assert(a@ == ws[start + out@.len()]);
                            return Greedy(out);
                        },
                    }
                },
                None => {
                    return Greedy(out);
                },
            }
        }
    }
}

/// Takes the word under the cursor as the next argument, moving the cursor on;
/// with no word left the argument is missing.
pub fn next_argument(words: &mut Words) -> (r: Result<String, Error>)
    ensures
        final(words)@.0 == old(words)@.0,
        final(words)@.1 == crate::words::step_forward(old(words)@.1),
        match old(words).word_at(old(words)@.1) {
            Some(w) => r matches Ok(s) && s@ == w,
            None => r matches Err(Error::MissingParameter),
        },
{
    match words.next() {
        Some(s) => Ok(s),
        None => Err(Error::MissingParameter),
    }
}

/// Takes an optional argument: with no word left there is none; otherwise the
/// word under the cursor is converted, a word that does not convert giving none.
/// The cursor moves on either way.
pub fn optional_argument<T, F: Fn(String) -> Option<T>>(words: &mut Words, convert: F) -> (r: Option<T>)
    requires
        forall|s: String| call_requires(convert, (s,)),
    ensures
        final(words)@.0 == old(words)@.0,
        final(words)@.1 == crate::words::step_forward(old(words)@.1),
        match old(words).word_at(old(words)@.1) {
            Some(w) => converts_to(convert, w, r),
            None => r is None,
        },
{
    match words.next() {
        Some(arg) => {
            let ghost a = arg;
            let r = convert(arg);
            assert(converts_to(convert, a@, r));
            r
        },
        None => None,
    }
}

/// `convert` can give `out` when handed a string whose text is `word`.
pub open spec fn converts_as<T, E, F: Fn(String) -> Result<T, E>>(convert: F, word: Seq<char>, out: Result<T, E>) -> bool {
    exists|s: String| s@ == word && call_ensures(convert, (s,), out)
}

/// The word at `j` of `ws` converts without error.
pub open spec fn word_converts<T, E, F: Fn(String) -> Result<T, E>>(convert: F, ws: Seq<Seq<char>>, j: int) -> bool {
    exists|o: T| converts_as(convert, ws[j], Ok(o))
}

/// Takes every word from the cursor on as an argument, converting each; the
/// first word that does not convert ends it with that word's error, the cursor
/// just past that word. When all convert, the cursor ends one step past the
/// last word, as the `next` that found no more leaves it.
pub fn all_arguments<T, E, F: Fn(String) -> Result<T, E>>(words: &mut Words, convert: F) -> (r: Result<Vec<T>, E>)
    requires
        forall|s: String| call_requires(convert, (s,)),
    ensures
        final(words)@.0 == old(words)@.0,
        match r {
            Ok(v) => {
                &&& forall|i: int| 0 <= i < v@.len() ==> converts_as(convert, old(words)@.0[old(words)@.1 + i], Ok(#[trigger] v@[i]))
                &&& if old(words)@.1 < old(words)@.0.len() {
                    &&& old(words)@.1 + v@.len() == old(words)@.0.len()
                    &&& final(words)@.1 == crate::words::step_forward(old(words)@.0.len() as usize)
                } else {
                    &&& v@.len() == 0
                    &&& final(words)@.1 == crate::words::step_forward(old(words)@.1)
                }
            },
            Err(e) => exists|k: int| {
                &&& 0 <= k
                &&& old(words)@.1 + k < old(words)@.0.len()
                &&& final(words)@.1 == old(words)@.1 + k + 1
                &&& converts_as(convert, #[trigger] old(words)@.0[old(words)@.1 + k], Err(e))
                &&& forall|j: int| old(words)@.1 <= j < old(words)@.1 + k ==> #[trigger] word_converts(convert, old(words)@.0, j)
            },
        },
{
    let ghost ws = words@.0;
    let ghost start = words@.1;
    let mut out: Vec<T> = Vec::new();
    proof {
        words.lemma_len_fits();
    }
    loop
        invariant
            words@.0 == ws,
            ws == old(words)@.0,
            start == old(words)@.1,
            ws.len() <= usize::MAX,
            forall|s: String| call_requires(convert, (s,)),
            words@.1 == start + out@.len(),
            start + out@.len() <= ws.len() || out@.len() == 0,
            forall|i: int| 0 <= i < out@.len() ==> converts_as(convert, ws[start + i], Ok(#[trigger] out@[i])),
        decreases ws.len() - words@.1,
    {
        match words.next() {
            Some(arg) => {
                let ghost a = arg;
                match convert(arg) {
                    Ok(v) => {
                        let ghost before = out@;
                        out.push(v);
                        assert forall|i: int| 0 <= i < out@.len() implies converts_as(convert, ws[start + i], Ok(#[trigger] out@[i])) by {
                            if i < before.len() {
                                assert(out@[i] == before[i]);
                            } else {
                                assert(a@ == ws[start + i]);
                            }
                        }
                    },
                    Err(e) => {
                        let ghost k = out@.len() as int;
                        assert(a@ == ws[start + k]);
                        assert forall|j: int| start <= j < start + k implies #[trigger] word_converts(convert, ws, j) by {
                            assert(converts_as(convert, ws[start + (j - start)], Ok(out@[j - start])));
                        }
                        return Err(e);
                    },
                }
            },
            None => {
                return Ok(out);
            },
        }
    }
}


/// The cached channel that `input` names, by a channel reference or bare.
pub fn convert_channel(cache: &GlobalCache, input: &str) -> (r: Result<Channel, Error>)
    ensures
        match mentioned_id(MentionKind::Channel, input@) {
            Some(id) => if cache.channels.map().contains_key(id) {
                r matches Ok(c) && c@ == cache.channels.map()[id]@
            } else {
                r matches Err(Error::ConverterError(m)) && m@ == "Channel not found"@
            },
            None => r matches Err(Error::ConverterError(m)) && m@ == "Channel not found"@,
        },
{
    match mention_id(MentionKind::Channel, input) {
        Some(id) => match cache.get_channel(id.as_str()) {
            Some(c) => Ok(c.duplicate()),
            None => Err(Error::ConverterError(String::from_str("Channel not found"))),
        },
        None => Err(Error::ConverterError(String::from_str("Channel not found"))),
    }
}

/// The role of the current server `server` that `input` names, by a role
/// reference or bare; outside a server there is none.
pub fn convert_role(server: Option<&Server>, input: &str) -> (r: Result<Role, Error>)
    ensures
        match (server, mentioned_id(MentionKind::Role, input@)) {
            (Some(s), Some(id)) => if s.roles.map().contains_key(id) {
                r matches Ok(x) && x@ == s.roles.map()[id]@
            } else {
                r matches Err(Error::ConverterError(m)) && m@ == "Role not found"@
            },
            _ => r matches Err(Error::ConverterError(m)) && m@ == "Role not found"@,
        },
{
    let server = match server {
        Some(s) => s,
        None => {
            return Err(Error::ConverterError(String::from_str("Role not found")));
        },
    };
    match mention_id(MentionKind::Role, input) {
        Some(id) => match server.roles.get(id.as_str()) {
            Some(role) => Ok(role.duplicate()),
            None => Err(Error::ConverterError(String::from_str("Role not found"))),
        },
        None => Err(Error::ConverterError(String::from_str("Role not found"))),
    }
}

/// The position of the first emoji of `s` named `name`.
pub open spec fn emoji_named(s: Seq<(String, Emoji)>, name: Seq<char>) -> Option<int>
    decreases s.len(),
{
    if s.len() == 0 {
        None
    } else if s[0].1.name@ == name {
        Some(0)
    } else {
        match emoji_named(s.drop_first(), name) {
            Some(i) => Some(i + 1),
            None => None,
        }
    }
}

/// The cached emoji that `input` names: by an emoji reference or bare identifier,
/// or, when it is neither, by its name.
pub fn convert_emoji(cache: &GlobalCache, input: &str) -> (r: Result<Emoji, Error>)
    ensures
        match mentioned_id(MentionKind::Emoji, input@) {
            Some(id) => if cache.emojis.map().contains_key(id) {
                r == Ok::<Emoji, Error>(cache.emojis.map()[id])
            } else {
                r matches Err(Error::ConverterError(m)) && m@ == "Emoji not found"@
            },
            None => match emoji_named(cache.emojis.entries(), input@) {
                Some(i) => r == Ok::<Emoji, Error>(cache.emojis.entries()[i].1),
                None => r matches Err(Error::ConverterError(m)) && m@ == "Emoji not found"@,
            },
        },
{
    match mention_id(MentionKind::Emoji, input) {
        Some(id) => match cache.get_emoji(id.as_str()) {
            Some(e) => Ok(e.duplicate()),
            None => Err(Error::ConverterError(String::from_str("Emoji not found"))),
        },
        None => {
            let n = cache.emojis.len();
            let ghost es = cache.emojis.entries();
            let mut i: usize = 0;
            assert(es.skip(0) =~= es);
            while i < n
                invariant
                    n == es.len(),
                    es == cache.emojis.entries(),
                    i <= n,
                    mentioned_id(MentionKind::Emoji, input@) is None,
                    emoji_named(es, input@) == (match emoji_named(es.skip(i as int), input@) {
                        Some(k) => Some(k + i),
                        None => None,
                    }),
                decreases n - i,
            {
                let (_, e) = cache.emojis.entry_at(i);
                let ghost rest = es.skip(i as int);
                assert(rest[0] == es[i as int]);
                assert(rest.drop_first() =~= es.skip(i + 1));
                if str_eq(e.name.as_str(), input) {
                    assert(emoji_named(rest, input@) == Some(0int));
                    return Ok(e.duplicate());
                }
                i = i + 1;
            }
            assert(es.skip(i as int).len() == 0);
            Err(Error::ConverterError(String::from_str("Emoji not found")))
        },
    }
}

/// Where a user that a command argument names is to be found.
#[derive(Debug)]
pub enum UserLookup {
    /// In the cache.
    Cached(User),
    /// Not cached: it is fetched by this identifier.
    Fetch(String),
    /// The argument names no user.
    NotFound,
}

/// Where the user that `input` names, by a user reference or bare, is to be found.
pub fn find_user(cache: &GlobalCache, input: &str) -> (r: UserLookup)
    ensures
        match mentioned_id(MentionKind::User, input@) {
            Some(id) => if cache.users.map().contains_key(id) {
                r matches UserLookup::Cached(u) && u@ == cache.users.map()[id]@
            } else {
                r matches UserLookup::Fetch(i) && i@ == id
            },
            None => r is NotFound,
        },
{
    match mention_id(MentionKind::User, input) {
        Some(id) => match cache.get_user(id.as_str()) {
            Some(u) => UserLookup::Cached(u.duplicate()),
            None => UserLookup::Fetch(id),
        },
        None => UserLookup::NotFound,
    }
}

/// The error when no user could be found for an argument.
pub fn user_not_found() -> (r: Error)
    ensures
        r matches Error::ConverterError(m) && m@ == "User not found"@,
{
    Error::ConverterError(String::from_str("User not found"))
}

/// The error when no member could be found for an argument.
pub fn member_not_found() -> (r: Error)
    ensures
        r matches Error::ConverterError(m) && m@ == "Member not found"@,
{
    Error::ConverterError(String::from_str("Member not found"))
}

} // verus!
