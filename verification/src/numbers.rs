use vstd::prelude::*;
use std::ops::Range;

use crate::error::ConfigError;

verus! {

/// Whether `c` is one of the ASCII decimal digits `0` to `9`.
pub open spec fn is_decimal_digit(c: char) -> bool {
    '0' <= c && c <= '9'
}

/// The value of the decimal digit `c`.
pub open spec fn digit_value(c: char) -> nat {
    (c as int - '0' as int) as nat
}

/// The number that the decimal digits `d` write, most significant first.
pub open spec fn digits_value(d: Seq<char>) -> nat
    decreases d.len(),
{
    if d.len() == 0 {
        0
    } else {
        digits_value(d.drop_last()) * 10 + digit_value(d.last())
    }
}

/// The text after an optional leading `+` sign.
pub open spec fn unsigned_digits(s: Seq<char>) -> Seq<char> {
    if s.len() > 0 && s[0] == '+' {
        s.drop_first()
    } else {
        s
    }
}

/// Whether `s` is an optional `+` sign followed by one or more decimal digits.
pub open spec fn is_unsigned_decimal(s: Seq<char>) -> bool {
    let d = unsigned_digits(s);
    &&& d.len() > 0
    &&& forall|i: int| 0 <= i < d.len() ==> is_decimal_digit(#[trigger] d[i])
}

/// The number that `s` denotes when read as an unsigned integer whose
/// largest value is `max`, or `None` when `s` does not denote one.
pub open spec fn spec_parse_unsigned(s: Seq<char>, max: int) -> Option<nat> {
    if is_unsigned_decimal(s) && digits_value(unsigned_digits(s)) <= max {
        Some(digits_value(unsigned_digits(s)))
    } else {
        None
    }
}

/// Reads `s` as a `u64` with std's `<u64 as FromStr>::from_str`.
///
/// Its documentation: the text is an optional `+` sign followed by only
/// ASCII digits (a `-` sign, any other character, an empty text and a
/// lone sign are errors), and a value above `u64::MAX` is an error.
/// The contract claims exactly that, with the error turned into `None`.
#[verifier::external_body]
fn parse_u64(s: &str) -> (r: Option<u64>)
    ensures
        match r {
            Some(v) => spec_parse_unsigned(s@, u64::MAX as int) == Some(v as nat),
            None => spec_parse_unsigned(s@, u64::MAX as int) is None,
        },
{
    s.parse::<u64>().ok()
}

/// Whether `v` lies in the half-open range `r`.
pub open spec fn in_range(r: Range<u64>, v: int) -> bool {
    r.start <= v && v < r.end
}

/// What `parse_num` gives back: the number written in `s` when it is an
/// unsigned number not above `type_max`, lies in `pos_range` if that is
/// given and outside `neg_range` if that is given; `msg` otherwise.
pub open spec fn spec_parse_num(
    s: Seq<char>,
    msg: ConfigError,
    type_max: u64,
    pos_range: Option<Range<u64>>,
    neg_range: Option<Range<u64>>,
) -> Result<u64, ConfigError> {
    match spec_parse_unsigned(s, type_max as int) {
        None => Err(msg),
        Some(v) => {
            if pos_range matches Some(r) && !in_range(r, v as int) {
                Err(msg)
            } else if neg_range matches Some(r) && in_range(r, v as int) {
                Err(msg)
            } else {
                Ok(v as u64)
            }
        },
    }
}

/// Converts a string to a number of an unsigned type whose largest value is
/// `type_max`, and checks it against the ranges, failing with `msg`.
///
/// * `pos_range` - when given, the number must lie within it.
/// * `neg_range` - when given, the number must not lie within it.
pub fn parse_num(
    str_val: &str,
    msg: ConfigError,
    type_max: u64,
    pos_range: Option<Range<u64>>,
    neg_range: Option<Range<u64>>,
) -> (res: Result<u64, ConfigError>)
    ensures
        res == spec_parse_num(str_val@, msg, type_max, pos_range, neg_range),
{
    let val = match parse_u64(str_val) {
        Some(x) => {
            if x > type_max {
                return Err(msg);
            }
            x
        },
        None => {
            return Err(msg);
        },
    };
    if let Some(rng) = pos_range {
        if !rng.contains(&val) {
            return Err(msg);
        }
    }
    if let Some(rng) = neg_range {
        if rng.contains(&val) {
            return Err(msg);
        }
    }
    Ok(val)
}


/// The value and shape of a text of two decimal digits.
pub(crate) proof fn lemma_digits2(a: char, b: char)
    requires
        is_decimal_digit(a),
        is_decimal_digit(b),
    ensures
        is_unsigned_decimal(seq![a, b]),
        digits_value(seq![a, b]) == digit_value(a) * 10
            + digit_value(b),
{
    let s = seq![a, b];
    assert(s.drop_last() =~= seq![a]);
    assert(seq![a].drop_last() =~= Seq::<char>::empty());
    assert(seq![a].last() == a);
    assert(digits_value(Seq::<char>::empty()) == 0);
    assert(digits_value(seq![a]) == digit_value(a));
    assert(unsigned_digits(s) == s);
}

/// The value and shape of a text of three decimal digits.
pub(crate) proof fn lemma_digits3(a: char, b: char, c: char)
    requires
        is_decimal_digit(a),
        is_decimal_digit(b),
        is_decimal_digit(c),
    ensures
        is_unsigned_decimal(seq![a, b, c]),
        digits_value(seq![a, b, c]) == (digit_value(a) * 10
            + digit_value(b)) * 10 + digit_value(c),
{
    let s = seq![a, b, c];
    lemma_digits2(a, b);
    assert(s.drop_last() =~= seq![a, b]);
    assert(unsigned_digits(s) == s);
}

/// The value and shape of a text of four decimal digits.
pub(crate) proof fn lemma_digits4(a: char, b: char, c: char, d: char)
    requires
        is_decimal_digit(a),
        is_decimal_digit(b),
        is_decimal_digit(c),
        is_decimal_digit(d),
    ensures
        is_unsigned_decimal(seq![a, b, c, d]),
        digits_value(seq![a, b, c, d]) == ((digit_value(a) * 10
            + digit_value(b)) * 10 + digit_value(c)) * 10
            + digit_value(d),
{
    let s = seq![a, b, c, d];
    lemma_digits3(a, b, c);
    assert(s.drop_last() =~= seq![a, b, c]);
    assert(unsigned_digits(s) == s);
}

/// A number that `parse_num` accepts is no larger than `type_max`, lies in
/// `pos_range` when that is given and outside `neg_range` when that is
/// given; a rejected text is answered with `msg` and nothing else.
pub proof fn lemma_parse_num_respects_ranges(
    s: Seq<char>,
    msg: ConfigError,
    type_max: u64,
    pos_range: Option<Range<u64>>,
    neg_range: Option<Range<u64>>,
)
    ensures
        match spec_parse_num(s, msg, type_max, pos_range, neg_range) {
            Ok(v) => {
                &&& v <= type_max
                &&& spec_parse_unsigned(s, type_max as int) == Some(v as nat)
                &&& (pos_range matches Some(r) ==> in_range(r, v as int))
                &&& (neg_range matches Some(r) ==> !in_range(r, v as int))
            },
            Err(e) => e == msg,
        },
{
}


/// `parse_num` accepts every text it should: an unsigned decimal whose value
/// is at most `type_max`, lies in `pos_range` when that is given and outside
/// `neg_range` when that is given, is read as exactly that value.
pub proof fn lemma_parse_num_accepts_valid_numbers(
    s: Seq<char>,
    msg: ConfigError,
    type_max: u64,
    pos_range: Option<Range<u64>>,
    neg_range: Option<Range<u64>>,
)
    requires
        is_unsigned_decimal(s),
        digits_value(unsigned_digits(s)) <= type_max,
        pos_range matches Some(r) ==> r.start <= digits_value(unsigned_digits(s)) < r.end,
        neg_range matches Some(r) ==> !(r.start <= digits_value(unsigned_digits(s)) < r.end),
    ensures
        spec_parse_num(s, msg, type_max, pos_range, neg_range) == Ok::<u64, ConfigError>(
            digits_value(unsigned_digits(s)) as u64,
        ),
{
}

} // verus!
