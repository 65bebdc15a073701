//! Byte-level helpers: ASCII trimming and upcasing, byte equality, and the
//! little-endian integer layout used by the on-chain account format.

use vstd::prelude::*;

verus! {

/// ASCII whitespace: space and the five control characters `\t \n \x0B \x0C \r`.
pub open spec fn is_ascii_ws(b: u8) -> bool {
    b == 32 || (9 <= b && b <= 13)
}

/// `s` with leading ASCII whitespace removed.
pub open spec fn trim_start_view(s: Seq<u8>) -> Seq<u8>
    decreases s.len(),
{
    if s.len() > 0 && is_ascii_ws(s[0]) {
        trim_start_view(s.skip(1))
    } else {
        s
    }
}

/// `s` with trailing ASCII whitespace removed.
pub open spec fn trim_end_view(s: Seq<u8>) -> Seq<u8>
    decreases s.len(),
{
    if s.len() > 0 && is_ascii_ws(s.last()) {
        trim_end_view(s.drop_last())
    } else {
        s
    }
}

/// `s` with ASCII whitespace removed from both ends.
pub open spec fn trim_view(s: Seq<u8>) -> Seq<u8> {
    trim_end_view(trim_start_view(s))
}

proof fn lemma_trim_start_skip(s: Seq<u8>, i: int)
    requires
        0 <= i <= s.len(),
        forall|k: int| 0 <= k < i ==> is_ascii_ws(#[trigger] s[k]),
        i == s.len() || !is_ascii_ws(s[i]),
    ensures
        trim_start_view(s) == s.skip(i),
    decreases i,
{
    if i == 0 {
        assert(s.skip(0) =~= s);
    } else {
        assert(is_ascii_ws(s[0]));
        lemma_trim_start_skip(s.skip(1), i - 1);
        assert(s.skip(1).skip(i - 1) =~= s.skip(i));
    }
}

proof fn lemma_trim_end_take(s: Seq<u8>, j: int)
    requires
        0 <= j <= s.len(),
        forall|k: int| j <= k < s.len() ==> is_ascii_ws(#[trigger] s[k]),
        j == 0 || !is_ascii_ws(s[j - 1]),
    ensures
        trim_end_view(s) == s.take(j),
    decreases s.len(),
{
    if j == s.len() {
        assert(s.take(j) =~= s);
        if s.len() > 0 {
            assert(!is_ascii_ws(s.last()));
        }
    } else {
        assert(is_ascii_ws(s.last()));
        lemma_trim_end_take(s.drop_last(), j);
        assert(s.drop_last().take(j) =~= s.take(j));
    }
}

/// Remove ASCII whitespace from both ends of a byte string.
pub fn trim_bytes(v: &[u8]) -> (r: Vec<u8>)
    ensures
        r@ == trim_view(v@),
{
    let len = v.len();
    let mut i: usize = 0;
    while i < len && (v[i] == 32 || (9 <= v[i] && v[i] <= 13))
        invariant
            0 <= i <= len,
            len == v@.len(),
            forall|k: int| 0 <= k < i ==> is_ascii_ws(#[trigger] v@[k]),
        decreases len - i,
    {
        i = i + 1;
    }
    let mut j: usize = len;
    while j > i && (v[j - 1] == 32 || (9 <= v[j - 1] && v[j - 1] <= 13))
        invariant
            i <= j <= len,
            len == v@.len(),
            forall|k: int| j <= k < len ==> is_ascii_ws(#[trigger] v@[k]),
        decreases j,
    {
        j = j - 1;
    }
    let mut out: Vec<u8> = Vec::new();
    let mut k: usize = i;
    while k < j
        invariant
            i <= k <= j <= len,
            len == v@.len(),
            out@ == v@.subrange(i as int, k as int),
        decreases j - k,
    {
        out.push(v[k]);
        assert(out@ =~= v@.subrange(i as int, k + 1 as int));
        k = k + 1;
    }
    proof {
        if i == len {
            lemma_trim_start_skip(v@, i as int);
            assert(trim_start_view(v@) =~= Seq::<u8>::empty());
            assert(trim_view(v@) =~= v@.subrange(i as int, j as int));
        } else if j == i {
            lemma_trim_start_skip(v@, i as int);
            lemma_trim_end_take(v@.skip(i as int), 0);
            assert(trim_view(v@) =~= v@.subrange(i as int, j as int));
        } else {
            lemma_trim_start_skip(v@, i as int);
            assert(!is_ascii_ws(v@[j - 1]));
            lemma_trim_end_take(v@.skip(i as int), j - i);
            assert(v@.skip(i as int).take(j - i) =~= v@.subrange(i as int, j as int));
        }
    }
    out
}

/// Compare two byte strings.
pub fn bytes_eq(a: &[u8], b: &[u8]) -> (r: bool)
    ensures
        r == (a@ == b@),
{
    if a.len() != b.len() {
        assert(a@ != b@) by {
            assert(a@.len() != b@.len());
        }
        return false;
    }
    let len = a.len();
    let mut i: usize = 0;
    while i < len
        invariant
            0 <= i <= len,
            len == a@.len() && len == b@.len(),
            forall|k: int| 0 <= k < i ==> a@[k] == #[trigger] b@[k],
        decreases len - i,
    {
        if a[i] != b[i] {
            return false;
        }
        i = i + 1;
    }
    proof {
        assert(a@ =~= b@);
    }
    true
}

/// A byte with lowercase ASCII letters mapped to uppercase.
pub open spec fn upper_byte(b: u8) -> u8 {
    if 97 <= b && b <= 122 {
        (b - 32) as u8
    } else {
        b
    }
}

/// `s` upcased bytewise.
pub open spec fn upper_view(s: Seq<u8>) -> Seq<u8> {
    s.map(|i: int, b: u8| upper_byte(b))
}

/// Upcase ASCII letters in a byte string.
pub fn ascii_upper(v: &[u8]) -> (r: Vec<u8>)
    ensures
        r@ == upper_view(v@),
{
    let len = v.len();
    let mut out: Vec<u8> = Vec::new();
    let mut i: usize = 0;
    while i < len
        invariant
            0 <= i <= len,
            len == v@.len(),
            out@.len() == i,
            forall|k: int| 0 <= k < i ==> out@[k] == upper_byte(#[trigger] v@[k]),
        decreases len - i,
    {
        let b = v[i];
        if 97 <= b && b <= 122 {
            out.push(b - 32);
        } else {
            out.push(b);
        }
        i = i + 1;
    }
    proof {
        assert(out@ =~= upper_view(v@));
    }
    out
}

/// 256 to the `n`-th power.
pub open spec fn pow256(n: nat) -> nat
    decreases n,
{
    if n == 0 {
        1
    } else {
        256 * pow256((n - 1) as nat)
    }
}

pub proof fn lemma_pow256_positive(n: nat)
    ensures
        pow256(n) >= 1,
    decreases n,
{
    if n > 0 {
        lemma_pow256_positive((n - 1) as nat);
    }
}

/// The value of a little-endian byte string.
pub open spec fn le_val(s: Seq<u8>) -> nat
    decreases s.len(),
{
    if s.len() == 0 {
        0
    } else {
        (s[0] + 256 * le_val(s.skip(1))) as nat
    }
}

/// The `n`-byte little-endian layout of `v` (modulo 256^n).
pub open spec fn le_bytes_of(v: nat, n: nat) -> Seq<u8>
    decreases n,
{
    if n == 0 {
        Seq::empty()
    } else {
        seq![(v % 256) as u8] + le_bytes_of(v / 256, (n - 1) as nat)
    }
}

pub proof fn lemma_le_bytes_of_len(v: nat, n: nat)
    ensures
        le_bytes_of(v, n).len() == n,
    decreases n,
{
    if n > 0 {
        lemma_le_bytes_of_len(v / 256, (n - 1) as nat);
    }
}

/// Encoding then decoding is the identity for values that fit.
pub proof fn lemma_le_round_trip(v: nat, n: nat)
    requires
        v < pow256(n),
    ensures
        le_val(le_bytes_of(v, n)) == v,
    decreases n,
{
    lemma_pow256_positive(n);
    if n == 0 {
    } else {
        let rest = le_bytes_of(v / 256, (n - 1) as nat);
        lemma_le_bytes_of_len(v / 256, (n - 1) as nat);
        assert(pow256(n) == 256 * pow256((n - 1) as nat));
        assert(v / 256 < pow256((n - 1) as nat)) by (nonlinear_arith)
            requires
                v < 256 * pow256((n - 1) as nat),
                pow256((n - 1) as nat) > 0,
        ;
        lemma_le_round_trip(v / 256, (n - 1) as nat);
        let s = le_bytes_of(v, n);
        assert(s.skip(1) =~= rest);
        assert(s[0] == v % 256);
        assert(v == 256 * (v / 256) + v % 256) by (nonlinear_arith);
    }
}

/// Decoding then encoding is the identity for byte strings.
pub proof fn lemma_le_bytes_round_trip(s: Seq<u8>)
    ensures
        le_bytes_of(le_val(s), s.len()) == s,
    decreases s.len(),
{
    if s.len() == 0 {
        assert(le_bytes_of(le_val(s), s.len()) =~= s);
    } else {
        let v = le_val(s);
        let tail_val = le_val(s.skip(1));
        assert(v == s[0] + 256 * tail_val);
        assert(v % 256 == s[0] && v / 256 == tail_val) by (nonlinear_arith)
            requires
                v == s[0] + 256 * tail_val,
                0 <= s[0] < 256,
                tail_val >= 0,
        ;
        lemma_le_bytes_round_trip(s.skip(1));
        assert(le_bytes_of(v, s.len()) =~= s) by {
            assert(le_bytes_of(v, s.len()) == seq![(v % 256) as u8] + le_bytes_of(
                v / 256,
                (s.len() - 1) as nat,
            ));
            assert(le_bytes_of(v / 256, (s.len() - 1) as nat) == s.skip(1));
        }
    }
}

/// The value of a little-endian byte string is bounded by 256^len.
pub proof fn lemma_le_val_bound(s: Seq<u8>)
    ensures
        le_val(s) < pow256(s.len()),
    decreases s.len(),
{
    lemma_pow256_positive(s.len());
    if s.len() == 0 {
    } else {
        lemma_le_val_bound(s.skip(1));
        assert(pow256(s.len()) == 256 * pow256((s.len() - 1) as nat));
        assert(s[0] + 256 * le_val(s.skip(1)) < 256 * pow256((s.len() - 1) as nat)) by (nonlinear_arith)
            requires
                le_val(s.skip(1)) < pow256((s.len() - 1) as nat),
                0 <= s[0] < 256,
        ;
    }
}

/// Little-endian layout of a `u64`, eight bytes.
pub fn u64_to_le_bytes(value: u64) -> (r: Vec<u8>)
    ensures
        r@ == le_bytes_of(value as nat, 8),
        r@.len() == 8,
{
    let mut out: Vec<u8> = Vec::new();
    let mut rest: u64 = value;
    let mut k: usize = 0;
    while k < 8
        invariant
            0 <= k <= 8,
            out@.len() == k,
            le_bytes_of(value as nat, 8) == out@ + le_bytes_of(rest as nat, (8 - k) as nat),
        decreases 8 - k,
    {
        proof {
            lemma_le_bytes_of_len(rest as nat, (8 - k) as nat);
        }
        out.push((rest % 256) as u8);
        rest = rest / 256;
        k = k + 1;
        proof {
            assert(le_bytes_of(value as nat, 8) =~= out@ + le_bytes_of(
                rest as nat,
                (8 - k) as nat,
            ));
        }
    }
    proof {
        assert(le_bytes_of(value as nat, 8) =~= out@);
        lemma_le_bytes_of_len(value as nat, 8);
    }
    out
}

} // verus!
