//! Join codes: the base-36 rendering of a match id, prefixed with `M`.
//!
//! The code is bijective with the positive match id, so a code can always
//! be traded back for exactly one match.

use vstd::prelude::*;
use vstd::arithmetic::div_mod::lemma_fundamental_div_mod;

use crate::error::AppError;

verus! {

/// The digit alphabet: `0`..`9` then `A`..`Z`.
pub open spec fn base36_char(d: int) -> char {
    if 0 <= d < 10 {
        ((48 + d) as u8) as char
    } else if 10 <= d < 36 {
        ((55 + d) as u8) as char
    } else {
        '?'
    }
}

/// Base-36 digits of `v`, most significant first. Zero is `[0]`.
pub open spec fn base36_digits(v: nat) -> Seq<int>
    decreases v,
{
    if v < 36 {
        seq![v as int]
    } else {
        base36_digits(v / 36).push((v % 36) as int)
    }
}

/// Base-36 rendering of `v` over the digit alphabet.
pub open spec fn base36_seq(v: nat) -> Seq<char> {
    base36_digits(v).map(|i: int, d: int| base36_char(d))
}

/// The join code of a match id: `M` followed by the base-36 digits.
pub open spec fn join_code_view(id: int) -> Seq<char>
    recommends
        id > 0,
{
    seq!['M'] + base36_seq(id as nat)
}

/// One digit as a string slice.
fn digit_str(d: u8) -> (r: &'static str)
    requires
        d < 36,
    ensures
        r@ == seq![base36_char(d as int)],
        r.is_ascii(),
{
    let table: [&'static str; 36] = [
        "0", "1", "2", "3", "4", "5", "6", "7", "8", "9",
        "A", "B", "C", "D", "E", "F", "G", "H", "I", "J",
        "K", "L", "M", "N", "O", "P", "Q", "R", "S", "T",
        "U", "V", "W", "X", "Y", "Z",
    ];
    proof {
        reveal_strlit("0"); reveal_strlit("1"); reveal_strlit("2"); reveal_strlit("3");
        reveal_strlit("4"); reveal_strlit("5"); reveal_strlit("6"); reveal_strlit("7");
        reveal_strlit("8"); reveal_strlit("9"); reveal_strlit("A"); reveal_strlit("B");
        reveal_strlit("C"); reveal_strlit("D"); reveal_strlit("E"); reveal_strlit("F");
        reveal_strlit("G"); reveal_strlit("H"); reveal_strlit("I"); reveal_strlit("J");
        reveal_strlit("K"); reveal_strlit("L"); reveal_strlit("M"); reveal_strlit("N");
        reveal_strlit("O"); reveal_strlit("P"); reveal_strlit("Q"); reveal_strlit("R");
        reveal_strlit("S"); reveal_strlit("T"); reveal_strlit("U"); reveal_strlit("V");
        reveal_strlit("W"); reveal_strlit("X"); reveal_strlit("Y"); reveal_strlit("Z");
    }
    let r: &'static str = table[d as usize];
    proof {
        assert(r@ =~= seq![base36_char(d as int)]);
    }
    r
}

/// Base-36 rendering of `value`, uppercase digits, no sign, no padding.
pub fn to_base36(value: u64) -> (s: String)
    ensures
        s@ == base36_seq(value as nat),
        s@.len() >= 1,
    decreases value,
{
    if value < 36 {
        let d = digit_str(value as u8);
        proof {
            assert(base36_seq(value as nat) =~= d@);
        }
        d.to_owned()
    } else {
        let mut s = to_base36(value / 36);
        let d = digit_str((value % 36) as u8);
        s.append(d);
        proof {
            assert(s@ =~= base36_seq(value as nat));
        }
        s
    }
}

/// The join code of a positive match id: `M` plus base-36 digits.
/// A non-positive id is an internal fault.
pub fn join_code_from_match_id(match_id: i64) -> (r: Result<String, AppError>)
    ensures
        match_id > 0 ==> (r matches Ok(c) && c@ == join_code_view(match_id as int)),
        match_id <= 0 ==> (r matches Err(e) && e is Internal),
{
    if match_id <= 0 {
        return Err(AppError::Internal("match_id must be positive".to_owned()));
    }
    proof {
        reveal_strlit("M");
    }
    let mut code: String = "M".to_owned();
    let digits = to_base36(match_id as u64);
    code.append(digits.as_str());
    proof {
        assert("M"@ =~= seq!['M']);
        assert(code@ =~= join_code_view(match_id as int));
    }
    Ok(code)
}

/// Decimal digits of `v`, most significant first. Zero is `[0]`.
pub open spec fn dec_digits_of(v: nat) -> Seq<int>
    decreases v,
{
    if v < 10 {
        seq![v as int]
    } else {
        dec_digits_of(v / 10).push((v % 10) as int)
    }
}

/// Decimal rendering of `v`.
pub open spec fn dec_seq(v: nat) -> Seq<char> {
    dec_digits_of(v).map(|i: int, d: int| base36_char(d))
}

/// Decimal rendering of an unsigned integer.
pub fn to_decimal(value: u64) -> (s: String)
    ensures
        s@ == dec_seq(value as nat),
        s@.len() >= 1,
    decreases value,
{
    if value < 10 {
        let d = digit_str(value as u8);
        proof {
            assert(dec_seq(value as nat) =~= d@);
        }
        d.to_owned()
    } else {
        let mut s = to_decimal(value / 10);
        let d = digit_str((value % 10) as u8);
        s.append(d);
        proof {
            assert(s@ =~= dec_seq(value as nat));
        }
        s
    }
}

/// Every digit that `base36_digits` emits lies in `0..36`.
proof fn lemma_base36_digits_in_range(v: nat)
    ensures
        base36_digits(v).len() >= 1,
        forall|i: int| 0 <= i < base36_digits(v).len() ==> 0 <= #[trigger] base36_digits(v)[i] < 36,
    decreases v,
{
    if v < 36 {
    } else {
        lemma_base36_digits_in_range(v / 36);
    }
}

/// The digit expansion pins the value down: equal expansions, equal values.
proof fn lemma_base36_digits_injective(a: nat, b: nat)
    requires
        base36_digits(a) == base36_digits(b),
    ensures
        a == b,
    decreases a + b,
{
    lemma_base36_digits_in_range(a);
    lemma_base36_digits_in_range(b);
    if a < 36 && b < 36 {
        assert(base36_digits(a)[0] == a as int);
        assert(base36_digits(b)[0] == b as int);
    } else if a < 36 {
        lemma_base36_digits_in_range(b / 36);
        assert(base36_digits(b).len() >= 2);
    } else if b < 36 {
        lemma_base36_digits_in_range(a / 36);
        assert(base36_digits(a).len() >= 2);
    } else {
        let da = base36_digits(a / 36);
        let db = base36_digits(b / 36);
        assert(da.push((a % 36) as int) == db.push((b % 36) as int));
        assert(da.len() == db.len()) by {
            assert(da.push((a % 36) as int).len() == db.push((b % 36) as int).len());
        }
        assert(da =~= db) by {
            assert(forall|i: int| 0 <= i < da.len()
                ==> #[trigger] da[i] == da.push((a % 36) as int)[i]
                    && db[i] == db.push((b % 36) as int)[i]);
        }
        assert((a % 36) as int == da.push((a % 36) as int)[da.len() as int]);
        assert((b % 36) as int == db.push((b % 36) as int)[db.len() as int]);
        assert(a % 36 == b % 36);
        lemma_base36_digits_injective(a / 36, b / 36);
        lemma_fundamental_div_mod(a as int, 36);
        lemma_fundamental_div_mod(b as int, 36);
    }
}

/// The numeric value that a digit's character stands for.
pub open spec fn base36_char_val(c: char) -> int {
    if 48 <= (c as u32) && (c as u32) < 58 {
        (c as u32) - 48
    } else if 65 <= (c as u32) && (c as u32) < 91 {
        (c as u32) - 55
    } else {
        -1
    }
}

/// Mapping a digit to its character and back is the identity.
proof fn lemma_base36_char_inverse(d: int)
    requires
        0 <= d < 36,
    ensures
        base36_char_val(base36_char(d)) == d,
{
}

/// The base-36 rendering is injective over the naturals.
proof fn lemma_base36_seq_injective(a: nat, b: nat)
    requires
        base36_seq(a) == base36_seq(b),
    ensures
        a == b,
{
    lemma_base36_digits_in_range(a);
    lemma_base36_digits_in_range(b);
    let da = base36_digits(a);
    let db = base36_digits(b);
    assert(da.len() == db.len()) by {
        assert(base36_seq(a).len() == da.len());
        assert(base36_seq(b).len() == db.len());
        assert(base36_seq(a).len() == base36_seq(b).len());
    }
    assert(da =~= db) by {
        assert forall|i: int| 0 <= i < da.len() implies #[trigger] da[i] == db[i] by {
            assert(base36_seq(a)[i] == base36_seq(b)[i]);
            assert(base36_seq(a)[i] == base36_char(da[i]));
            assert(base36_seq(b)[i] == base36_char(db[i]));
            lemma_base36_char_inverse(da[i]);
            lemma_base36_char_inverse(db[i]);
        }
    }
    lemma_base36_digits_injective(a, b);
}

/// Distinct positive match ids always get distinct join codes: the code
/// determines the match.
pub proof fn lemma_join_code_injective(a: i64, b: i64)
    requires
        a > 0,
        b > 0,
        a != b,
    ensures
        join_code_view(a as int) != join_code_view(b as int),
{
    if join_code_view(a as int) == join_code_view(b as int) {
        let sa = base36_seq(a as nat);
        let sb = base36_seq(b as nat);
        assert(sa =~= sb) by {
            assert(join_code_view(a as int).len() == join_code_view(b as int).len());
            assert forall|i: int| 0 <= i < sa.len() implies #[trigger] sa[i] == sb[i] by {
                assert(join_code_view(a as int)[i + 1] == sa[i]);
                assert(join_code_view(b as int)[i + 1] == sb[i]);
            }
        }
        lemma_base36_seq_injective(a as nat, b as nat);
    }
}

} // verus!
