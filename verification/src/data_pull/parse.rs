//! Reading the identifiers and instants that the esports API writes as text.
use vstd::prelude::*;
use vstd::std_specs::convert::FromSpecImpl;
use super::serde_models::{LolesportsDateTime, LolesportsId};

verus! {

/// Whether `c` is a decimal digit.
pub open spec fn is_digit(c: char) -> bool {
    '0' <= c && c <= '9'
}

/// The value of the decimal digits `s`.
pub open spec fn digits_value(s: Seq<char>) -> int
    decreases s.len(),
{
    if s.len() == 0 {
        0
    } else {
        digits_value(s.drop_last()) * 10 + ((s.last() as int) - ('0' as int))
    }
}

/// Whether `s` starts with a sign.
pub open spec fn has_sign(s: Seq<char>) -> bool {
    s.len() > 0 && (s[0] == '-' || s[0] == '+')
}

/// `s` without its sign.
pub open spec fn unsigned_part(s: Seq<char>) -> Seq<char> {
    if has_sign(s) {
        s.drop_first()
    } else {
        s
    }
}

/// The integer written by `s` in decimal, with an optional `+` or `-` sign
/// and at least one digit, nothing else; `None` for any other text.
pub open spec fn decimal_value(s: Seq<char>) -> Option<int> {
    let digits = unsigned_part(s);
    if digits.len() > 0 && forall|i: int| 0 <= i < digits.len() ==> is_digit(#[trigger] digits[i]) {
        if has_sign(s) && s[0] == '-' {
            Some(-digits_value(digits))
        } else {
            Some(digits_value(digits))
        }
    } else {
        None
    }
}

/// How decimal text reads: a digit appended to digits multiplies their value
/// by ten and adds the digit's value; digits alone, or after a `+`, read as
/// their value, and after a `-` as its opposite; text with anything but digits
/// after the optional sign, or with no digit, reads as nothing.
pub proof fn lemma_decimal_reading(d: Seq<char>, c: char)
    ensures
        digits_value(d.push(c)) == 10 * digits_value(d) + (c as int - '0' as int),
        d.len() > 0 && (forall|i: int| 0 <= i < d.len() ==> '0' <= #[trigger] d[i] <= '9') ==> {
            &&& decimal_value(d) == Some(digits_value(d))
            &&& decimal_value(seq!['+'] + d) == Some(digits_value(d))
            &&& decimal_value(seq!['-'] + d) == Some(-digits_value(d))
        },
        (exists|i: int| 0 <= i < d.len() && !('0' <= #[trigger] d[i] <= '9')) ==> {
            &&& decimal_value(d.push(c)) is None || has_sign(d.push(c))
            &&& decimal_value(seq!['-'] + d) is None
            &&& decimal_value(seq!['+'] + d) is None
        },
        decimal_value(Seq::<char>::empty()) is None,
        decimal_value(seq!['-']) is None,
        decimal_value(seq!['+']) is None,
{
    assert(d.push(c).drop_last() =~= d);
    assert((seq!['+'] + d).drop_first() =~= d);
    assert((seq!['-'] + d).drop_first() =~= d);
    assert(seq!['-'].drop_first() =~= Seq::<char>::empty());
    assert(seq!['+'].drop_first() =~= Seq::<char>::empty());
    if exists|i: int| 0 <= i < d.len() && !('0' <= #[trigger] d[i] <= '9') {
        let i = choose|i: int| 0 <= i < d.len() && !('0' <= #[trigger] d[i] <= '9');
        assert((seq!['-'] + d).drop_first()[i] == d[i]);
        assert((seq!['+'] + d).drop_first()[i] == d[i]);
        if !has_sign(d.push(c)) {
            assert(d.push(c)[i] == d[i]);
        }
    }
}

/// The 64-bit integer that `s` writes in decimal; `None` when `s` is not a
/// decimal integer or its value does not fit.
pub open spec fn decimal_i64(s: Seq<char>) -> Option<i64> {
    match decimal_value(s) {
        Some(v) => if i64::MIN <= v <= i64::MAX {
            Some(v as i64)
        } else {
            None
        },
        None => None,
    }
}

/// `str::parse::<i64>`. Its documentation: the text is an optional `+` or `-`
/// sign followed by one or more decimal digits, and nothing else; the value
/// must fit in an `i64`; any other text is an error. The contract states that.
#[verifier::external_body]
fn parse_i64(s: &str) -> (r: Option<i64>)
    ensures
        r == decimal_i64(s@),
{
    s.parse::<i64>().ok()
}

/// What `chrono::NaiveDateTime::parse_from_str(s, fmt)` gives, read as UTC and
/// counted in milliseconds since the Unix epoch; `None` when `s` does not
/// follow the format `fmt`.
pub uninterp spec fn naive_utc_millis(s: Seq<char>, fmt: Seq<char>) -> Option<i64>;

/// `chrono::NaiveDateTime::parse_from_str`, whose result is then taken as UTC
/// (`and_utc`) and given in milliseconds since the epoch (`timestamp_millis`).
/// The contract names the result, a function of the text and the format; it
/// says nothing of how chrono reads the format.
#[verifier::external_body]
fn parse_naive_utc_millis(s: &str, fmt: &str) -> (r: Option<i64>)
    ensures
        r == naive_utc_millis(s@, fmt@),
{
    match chrono::NaiveDateTime::parse_from_str(s, fmt) {
        Ok(d) => Some(d.and_utc().timestamp_millis()),
        Err(_) => None,
    }
}

/// The format of the instants of the esports API.
pub open spec fn api_datetime_format() -> Seq<char> {
    "%Y-%m-%dT%H:%M:%S%.3fZ"@
}

impl LolesportsId {
    /// The id that the API writes as the decimal text `s`; `None` when `s` is
    /// not a decimal integer that fits in 64 bits.
    pub fn from_api_str(s: &str) -> (r: Option<LolesportsId>)
        ensures
            r == (match decimal_i64(s@) {
                Some(v) => Some(LolesportsId(v)),
                None => None,
            }),
    {
        match parse_i64(s) {
            Some(v) => Some(LolesportsId(v)),
            None => None,
        }
    }
}

impl LolesportsDateTime {
    /// The instant that the API writes as `s`, in its format
    /// `%Y-%m-%dT%H:%M:%S%.3fZ`; `None` when `s` does not follow it.
    pub fn from_api_str(s: &str) -> (r: Option<LolesportsDateTime>)
        ensures
            r == (match naive_utc_millis(s@, api_datetime_format()) {
                Some(ms) => Some(LolesportsDateTime(ms)),
                None => None,
            }),
    {
        match parse_naive_utc_millis(s, "%Y-%m-%dT%H:%M:%S%.3fZ") {
            Some(ms) => Some(LolesportsDateTime(ms)),
            None => None,
        }
    }
}

impl From<LolesportsId> for i64 {
    fn from(value: LolesportsId) -> (r: i64) {
        value.0
    }
}

impl FromSpecImpl<LolesportsId> for i64 {
    open spec fn obeys_from_spec() -> bool {
        true
    }

    open spec fn from_spec(v: LolesportsId) -> i64 {
        v.0
    }
}

} // verus!
