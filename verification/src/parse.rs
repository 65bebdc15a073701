//! Decimal parsing with the exact acceptance rules of the standard
//! integer parsers: an optional sign, then one or more ASCII digits,
//! rejected when the value does not fit the target type.

use vstd::prelude::*;

use vstd::string::StringSliceAdditionalSpecFns;

use crate::bytes::trim_bytes;
use crate::bytes::trim_view;
use crate::error::AppError;

verus! {

/// Every byte is an ASCII digit, and there is at least one.
pub open spec fn is_dec_digits(s: Seq<u8>) -> bool {
    s.len() >= 1 && forall|i: int| 0 <= i < s.len() ==> 48 <= #[trigger] s[i] <= 57
}

/// Numeric value of a digit string, most significant first.
pub open spec fn dec_val(s: Seq<u8>) -> int
    decreases s.len(),
{
    if s.len() == 0 {
        0
    } else {
        dec_val(s.drop_last()) * 10 + (s.last() - 48)
    }
}

/// The digit body of a signed decimal string: everything after one
/// optional leading `+` or `-`.
pub open spec fn signed_body(s: Seq<u8>) -> Seq<u8> {
    if s.len() >= 1 && (s[0] == 43 || s[0] == 45) {
        s.skip(1)
    } else {
        s
    }
}

/// Whether a signed decimal string is negative.
pub open spec fn signed_neg(s: Seq<u8>) -> bool {
    s.len() >= 1 && s[0] == 45
}

/// What `u64::from_str` accepts and returns on these bytes: an optional
/// `+`, digits only, value within `u64`.
pub open spec fn parse_u64_spec(s: Seq<u8>) -> Option<u64> {
    if is_dec_digits(signed_body(s)) && !signed_neg(s) && dec_val(signed_body(s)) <= u64::MAX {
        Some(dec_val(signed_body(s)) as u64)
    } else {
        None
    }
}

/// What `i64::from_str` accepts and returns on these bytes: an optional
/// sign, digits only, value within `i64`.
pub open spec fn parse_i64_spec(s: Seq<u8>) -> Option<i64> {
    if !is_dec_digits(signed_body(s)) {
        None
    } else if signed_neg(s) {
        if -dec_val(signed_body(s)) >= i64::MIN {
            Some((-dec_val(signed_body(s))) as i64)
        } else {
            None
        }
    } else {
        if dec_val(signed_body(s)) <= i64::MAX {
            Some(dec_val(signed_body(s)) as i64)
        } else {
            None
        }
    }
}

proof fn lemma_dec_val_take_step(s: Seq<u8>, k: int)
    requires
        0 <= k < s.len(),
    ensures
        dec_val(s.take(k + 1)) == dec_val(s.take(k)) * 10 + (s[k] - 48),
{
    assert(s.take(k + 1).drop_last() =~= s.take(k));
    assert(s.take(k + 1).last() == s[k]);
}

proof fn lemma_dec_val_nonneg(s: Seq<u8>)
    requires
        forall|i: int| 0 <= i < s.len() ==> 48 <= #[trigger] s[i],
    ensures
        dec_val(s) >= 0,
    decreases s.len(),
{
    if s.len() > 0 {
        lemma_dec_val_nonneg(s.drop_last());
    }
}

/// Once a digit prefix exceeds a bound, the whole digit string does.
proof fn lemma_dec_val_prefix_grows(s: Seq<u8>, k: int)
    requires
        0 <= k <= s.len(),
        forall|i: int| 0 <= i < s.len() ==> 48 <= #[trigger] s[i] <= 57,
    ensures
        dec_val(s) >= dec_val(s.take(k)),
    decreases s.len() - k,
{
    if k == s.len() {
        assert(s.take(k) =~= s);
    } else {
        lemma_dec_val_take_step(s, k);
        proof_dec_val_step_ge(s, k);
        lemma_dec_val_prefix_grows(s, k + 1);
    }
}

proof fn proof_dec_val_step_ge(s: Seq<u8>, k: int)
    requires
        0 <= k < s.len(),
        forall|i: int| 0 <= i < s.len() ==> 48 <= #[trigger] s[i] <= 57,
    ensures
        dec_val(s.take(k + 1)) >= dec_val(s.take(k)),
{
    lemma_dec_val_take_step(s, k);
    assert(forall|i: int| 0 <= i < s.take(k).len() ==> 48 <= #[trigger] s.take(k)[i]);
    lemma_dec_val_nonneg(s.take(k));
    assert(dec_val(s.take(k)) * 10 >= dec_val(s.take(k))) by (nonlinear_arith)
        requires
            dec_val(s.take(k)) >= 0,
    ;
}

/// Parse the decimal magnitude in `digits`, failing on a non-digit, an
/// empty string, or a value above `limit`.
fn parse_magnitude(digits: &[u8], limit: u64) -> (r: Option<u64>)
    ensures
        (match r {
            Some(v) => is_dec_digits(digits@) && dec_val(digits@) == v && v <= limit,
            None => !is_dec_digits(digits@) || dec_val(digits@) > limit,
        }),
{
    let len = digits.len();
    if len == 0 {
        return None;
    }
    let mut acc: u64 = 0;
    let mut k: usize = 0;
    while k < len
        invariant
            0 <= k <= len,
            len == digits@.len(),
            forall|i: int| 0 <= i < k ==> 48 <= #[trigger] digits@[i] <= 57,
            acc == dec_val(digits@.take(k as int)),
            acc <= limit,
        decreases len - k,
    {
        let b = digits[k];
        if b < 48 || b > 57 {
            return None;
        }
        let d: u64 = (b - 48) as u64;
        proof {
            lemma_dec_val_take_step(digits@, k as int);
        }
        if acc > limit / 10 || (acc == limit / 10 && d > limit % 10) {
            proof {
                assert(dec_val(digits@.take(k + 1 as int)) > limit) by (nonlinear_arith)
                    requires
                        dec_val(digits@.take(k + 1 as int)) == acc * 10 + d,
                        acc > limit / 10 || (acc == limit / 10 && d > limit % 10),
                        acc >= 0,
                        d >= 0,
                        limit == (limit / 10) * 10 + limit % 10,
                        0 <= limit % 10 < 10,
                ;
                if k + 1 < len {
                    if forall|i: int| 0 <= i < len ==> 48 <= #[trigger] digits@[i] <= 57 {
                        lemma_dec_val_prefix_grows(digits@, k + 1 as int);
                    }
                }
                if k + 1 == len {
                    assert(digits@.take(k + 1 as int) =~= digits@);
                }
            }
            return None;
        }
        proof {
            assert(acc * 10 + d <= limit) by (nonlinear_arith)
                requires
                    acc <= limit / 10,
                    acc <= limit / 10 ==> (acc < limit / 10 || acc == limit / 10),
                    acc == limit / 10 ==> d <= limit % 10,
                    acc >= 0,
                    0 <= d <= 9,
                    limit == (limit / 10) * 10 + limit % 10,
                    0 <= limit % 10 < 10,
            ;
        }
        acc = acc * 10 + d;
        k = k + 1;
    }
    proof {
        assert(digits@.take(len as int) =~= digits@);
    }
    Some(acc)
}

/// Parse an unsigned decimal string as `u64::from_str` does.
pub fn parse_u64(s: &[u8]) -> (r: Option<u64>)
    ensures
        r == parse_u64_spec(s@),
{
    if s.len() >= 1 && s[0] == 45 {
        return None;
    }
    let body: &[u8] = if s.len() >= 1 && s[0] == 43 {
        vstd::slice::slice_subrange(s, 1, s.len())
    } else {
        s
    };
    proof {
        assert(body@ =~= signed_body(s@));
    }
    parse_magnitude(body, u64::MAX)
}

/// Parse a signed decimal string as `i64::from_str` does.
pub fn parse_i64(s: &[u8]) -> (r: Option<i64>)
    ensures
        r == parse_i64_spec(s@),
{
    let neg = s.len() >= 1 && s[0] == 45;
    let body: &[u8] = if s.len() >= 1 && (s[0] == 43 || s[0] == 45) {
        vstd::slice::slice_subrange(s, 1, s.len())
    } else {
        s
    };
    proof {
        assert(body@ =~= signed_body(s@));
    }
    if neg {
        // The magnitude of i64::MIN.
        match parse_magnitude(body, 9223372036854775808u64) {
            Some(v) => {
                if v == 9223372036854775808u64 {
                    Some(i64::MIN)
                } else {
                    Some(-(v as i64))
                }
            },
            None => None,
        }
    } else {
        match parse_magnitude(body, i64::MAX as u64) {
            Some(v) => Some(v as i64),
            None => None,
        }
    }
}

/// ASCII whitespace, at the character level.
pub open spec fn is_ws_char(c: char) -> bool {
    c == ' ' || (9 <= (c as u32) && (c as u32) <= 13)
}

/// Leading ASCII whitespace removed, at the character level.
pub open spec fn trim_chars_start(s: Seq<char>) -> Seq<char>
    decreases s.len(),
{
    if s.len() > 0 && is_ws_char(s[0]) {
        trim_chars_start(s.skip(1))
    } else {
        s
    }
}

/// Trailing ASCII whitespace removed, at the character level.
pub open spec fn trim_chars_end(s: Seq<char>) -> Seq<char>
    decreases s.len(),
{
    if s.len() > 0 && is_ws_char(s.last()) {
        trim_chars_end(s.drop_last())
    } else {
        s
    }
}

/// ASCII whitespace removed from both ends, at the character level.
pub open spec fn trim_chars(s: Seq<char>) -> Seq<char> {
    trim_chars_end(trim_chars_start(s))
}

proof fn lemma_trim_chars_start_skip(s: Seq<char>, i: int)
    requires
        0 <= i <= s.len(),
        forall|k: int| 0 <= k < i ==> is_ws_char(#[trigger] s[k]),
        i == s.len() || !is_ws_char(s[i]),
    ensures
        trim_chars_start(s) == s.skip(i),
    decreases i,
{
    if i == 0 {
        assert(s.skip(0) =~= s);
    } else {
        lemma_trim_chars_start_skip(s.skip(1), i - 1);
        assert(s.skip(1).skip(i - 1) =~= s.skip(i));
    }
}

proof fn lemma_trim_chars_end_take(s: Seq<char>, j: int)
    requires
        0 <= j <= s.len(),
        forall|k: int| j <= k < s.len() ==> is_ws_char(#[trigger] s[k]),
        j == 0 || !is_ws_char(s[j - 1]),
    ensures
        trim_chars_end(s) == s.take(j),
    decreases s.len(),
{
    if j == s.len() {
        assert(s.take(j) =~= s);
    } else {
        lemma_trim_chars_end_take(s.drop_last(), j);
        assert(s.drop_last().take(j) =~= s.take(j));
    }
}

/// The character view of a string as the request handlers see it:
/// ASCII strings are trimmed, anything else passes through untouched.
pub open spec fn trimmed_view(s: Seq<char>) -> Seq<char> {
    if vstd::utf8::is_ascii_chars(s) {
        trim_chars(s)
    } else {
        s
    }
}

/// Whether the character at `i` is ASCII whitespace.
fn is_ws_at(s: &str, i: usize) -> (r: bool)
    requires
        vstd::string::is_ascii(s),
        i < s@.len(),
    ensures
        r == is_ws_char(s@[i as int]),
{
    let b = s.get_ascii(i);
    b == 32 || (9 <= b && b <= 13)
}

/// Trim ASCII whitespace off an ASCII string; other strings pass
/// through untouched.
pub fn trim_str<'a>(s: &'a str) -> (r: &'a str)
    ensures
        r@ == trimmed_view(s@),
        vstd::string::is_ascii(s) ==> r.is_ascii(),
{
    broadcast use vstd::string::is_ascii_spec_bytes;

    if !s.is_ascii() {
        return s;
    }
    let len = s.unicode_len();
    let mut i: usize = 0;
    while i < len && is_ws_at(s, i)
        invariant
            s.is_ascii(),
            0 <= i <= len,
            len == s@.len(),
            forall|k: int| 0 <= k < i ==> is_ws_char(#[trigger] s@[k]),
        decreases len - i,
    {
        i = i + 1;
    }
    let mut j: usize = len;
    while j > i && is_ws_at(s, j - 1)
        invariant
            s.is_ascii(),
            0 <= i <= j <= len,
            len == s@.len(),
            forall|k: int| j <= k < len ==> is_ws_char(#[trigger] s@[k]),
        decreases j,
    {
        j = j - 1;
    }
    let r = s.substring_ascii(i, j);
    proof {
        if i == len {
            lemma_trim_chars_start_skip(s@, i as int);
            assert(trim_chars_start(s@) =~= Seq::<char>::empty());
            assert(trim_chars(s@) =~= s@.subrange(i as int, j as int));
        } else if j == i {
            lemma_trim_chars_start_skip(s@, i as int);
            lemma_trim_chars_end_take(s@.skip(i as int), 0);
            assert(trim_chars(s@) =~= s@.subrange(i as int, j as int));
        } else {
            lemma_trim_chars_start_skip(s@, i as int);
            lemma_trim_chars_end_take(s@.skip(i as int), j - i);
            assert(s@.skip(i as int).take(j - i) =~= s@.subrange(i as int, j as int));
        }
    }
    r
}

/// Parse a positive match id from its path segment: trimmed, decimal,
/// strictly positive.
pub fn parse_match_id(raw: &str) -> (r: Result<i64, AppError>)
    ensures
        (match r {
            Ok(id) => parse_i64_spec(trim_view(raw.spec_bytes())) == Some(id) && id > 0,
            Err(e) => e is BadRequest && (match parse_i64_spec(trim_view(raw.spec_bytes())) {
                Some(id) => id <= 0,
                None => true,
            }),
        }),
{
    let bs = raw.as_bytes();
    let trimmed = trim_bytes(bs);
    match parse_i64(trimmed.as_slice()) {
        Some(id) => {
            if id <= 0 {
                Err(AppError::BadRequest("match_id must be positive".to_owned()))
            } else {
                Ok(id)
            }
        },
        None => Err(AppError::BadRequest("match_id must be an integer".to_owned())),
    }
}

/// Parse the `X-Timestamp` header value: trimmed, decimal seconds.
/// Anything else is an authentication failure.
pub fn parse_timestamp(raw: &str) -> (r: Result<i64, AppError>)
    ensures
        (match r {
            Ok(t) => parse_i64_spec(trim_view(raw.spec_bytes())) == Some(t),
            Err(e) => e is Unauthorized && parse_i64_spec(trim_view(raw.spec_bytes())) is None,
        }),
{
    let bs = raw.as_bytes();
    let trimmed = trim_bytes(bs);
    match parse_i64(trimmed.as_slice()) {
        Some(t) => Ok(t),
        None => Err(AppError::Unauthorized),
    }
}

} // verus!
