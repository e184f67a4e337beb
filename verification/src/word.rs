//! Mathematical model of 16-bit words and 15-bit address buses.
//!
//! A word is a sequence of 16 booleans; index 0 carries weight 1 and
//! index 15 carries weight 32768 and doubles as the two's-complement
//! sign bit.  The value functions below are the vocabulary in which
//! every contract of the library is stated.

use vstd::arithmetic::power2::{lemma2_to64, lemma_pow2_unfold, pow2};
use vstd::prelude::*;

verus! {

/// Numeric weight of a single bit.
pub open spec fn bit1(b: bool) -> nat {
    if b {
        1
    } else {
        0
    }
}

/// Unsigned value of a 16-bit word, least-significant bit at index 0.
pub open spec fn uval16(s: Seq<bool>) -> nat
    recommends
        s.len() == 16,
{
    bit1(s[0]) + 2 * bit1(s[1]) + 4 * bit1(s[2]) + 8 * bit1(s[3]) + 16 * bit1(s[4]) + 32 * bit1(
        s[5],
    ) + 64 * bit1(s[6]) + 128 * bit1(s[7]) + 256 * bit1(s[8]) + 512 * bit1(s[9]) + 1024 * bit1(
        s[10],
    ) + 2048 * bit1(s[11]) + 4096 * bit1(s[12]) + 8192 * bit1(s[13]) + 16384 * bit1(s[14]) + 32768
        * bit1(s[15])
}

/// Signed (two's-complement) value of a 16-bit word.
pub open spec fn ival16(s: Seq<bool>) -> int
    recommends
        s.len() == 16,
{
    uval16(s) - if s[15] {
        65536int
    } else {
        0int
    }
}

/// Unsigned value of a 15-bit address bus.
pub open spec fn uval15(s: Seq<bool>) -> nat
    recommends
        s.len() == 15,
{
    bit1(s[0]) + 2 * bit1(s[1]) + 4 * bit1(s[2]) + 8 * bit1(s[3]) + 16 * bit1(s[4]) + 32 * bit1(
        s[5],
    ) + 64 * bit1(s[6]) + 128 * bit1(s[7]) + 256 * bit1(s[8]) + 512 * bit1(s[9]) + 1024 * bit1(
        s[10],
    ) + 2048 * bit1(s[11]) + 4096 * bit1(s[12]) + 8192 * bit1(s[13]) + 16384 * bit1(s[14])
}

/// The all-zero word.
pub open spec fn zero16() -> Seq<bool> {
    Seq::new(16, |i: int| false)
}

/// The word holding the value one.
pub open spec fn one16() -> Seq<bool> {
    Seq::new(16, |i: int| i == 0)
}

/// Value of the low `k` bits of a sequence, bit `j` carrying weight
/// 2^j; the positional form the iterative converters are proved
/// against.
pub open spec fn lval(s: Seq<bool>, k: int) -> nat
    decreases k,
{
    if k <= 0 {
        0
    } else {
        lval(s, k - 1) + bit1(s[k - 1]) * pow2((k - 1) as nat)
    }
}

/// The low bits of a word are worth less than the next power of two.
pub proof fn lemma_lval_bound(s: Seq<bool>, k: int)
    requires
        0 <= k,
    ensures
        lval(s, k) < pow2(k as nat),
    decreases k,
{
    if k == 0 {
        assert(pow2(0) == 1) by {
            lemma2_to64();
        }
    } else {
        lemma_lval_bound(s, k - 1);
        lemma_pow2_unfold(k as nat);
        assert(bit1(s[k - 1]) * pow2((k - 1) as nat) <= pow2((k - 1) as nat));
    }
}

/// Two sequences that agree below `k` have the same low-bits value.
pub proof fn lemma_lval_agree(s1: Seq<bool>, s2: Seq<bool>, k: int)
    requires
        forall|j: int| 0 <= j < k ==> s1[j] == s2[j],
    ensures
        lval(s1, k) == lval(s2, k),
    decreases k,
{
    if k > 0 {
        lemma_lval_agree(s1, s2, k - 1);
    }
}

/// The positional value of all sixteen bits is the word's unsigned
/// value.
#[verifier::rlimit(100)]
pub proof fn lemma_lval16_eq_uval16(s: Seq<bool>)
    ensures
        lval(s, 16) == uval16(s),
{
    lemma2_to64();
    assert(lval(s, 0) == 0);
    assert(lval(s, 1) == bit1(s[0]) * pow2(0));
    assert(lval(s, 2) == lval(s, 1) + bit1(s[1]) * pow2(1));
    assert(lval(s, 3) == lval(s, 2) + bit1(s[2]) * pow2(2));
    assert(lval(s, 4) == lval(s, 3) + bit1(s[3]) * pow2(3));
    assert(lval(s, 5) == lval(s, 4) + bit1(s[4]) * pow2(4));
    assert(lval(s, 6) == lval(s, 5) + bit1(s[5]) * pow2(5));
    assert(lval(s, 7) == lval(s, 6) + bit1(s[6]) * pow2(6));
    assert(lval(s, 8) == lval(s, 7) + bit1(s[7]) * pow2(7));
    assert(lval(s, 9) == lval(s, 8) + bit1(s[8]) * pow2(8));
    assert(lval(s, 10) == lval(s, 9) + bit1(s[9]) * pow2(9));
    assert(lval(s, 11) == lval(s, 10) + bit1(s[10]) * pow2(10));
    assert(lval(s, 12) == lval(s, 11) + bit1(s[11]) * pow2(11));
    assert(lval(s, 13) == lval(s, 12) + bit1(s[12]) * pow2(12));
    assert(lval(s, 14) == lval(s, 13) + bit1(s[13]) * pow2(13));
    assert(lval(s, 15) == lval(s, 14) + bit1(s[14]) * pow2(14));
    assert(lval(s, 16) == lval(s, 15) + bit1(s[15]) * pow2(15));
}

/// The positional value of fifteen bits is the address bus value.
#[verifier::rlimit(100)]
pub proof fn lemma_lval15_eq_uval15(s: Seq<bool>)
    ensures
        lval(s, 15) == uval15(s),
{
    lemma2_to64();
    assert(lval(s, 0) == 0);
    assert(lval(s, 1) == bit1(s[0]) * pow2(0));
    assert(lval(s, 2) == lval(s, 1) + bit1(s[1]) * pow2(1));
    assert(lval(s, 3) == lval(s, 2) + bit1(s[2]) * pow2(2));
    assert(lval(s, 4) == lval(s, 3) + bit1(s[3]) * pow2(3));
    assert(lval(s, 5) == lval(s, 4) + bit1(s[4]) * pow2(4));
    assert(lval(s, 6) == lval(s, 5) + bit1(s[5]) * pow2(5));
    assert(lval(s, 7) == lval(s, 6) + bit1(s[6]) * pow2(6));
    assert(lval(s, 8) == lval(s, 7) + bit1(s[7]) * pow2(7));
    assert(lval(s, 9) == lval(s, 8) + bit1(s[8]) * pow2(8));
    assert(lval(s, 10) == lval(s, 9) + bit1(s[9]) * pow2(9));
    assert(lval(s, 11) == lval(s, 10) + bit1(s[10]) * pow2(10));
    assert(lval(s, 12) == lval(s, 11) + bit1(s[11]) * pow2(11));
    assert(lval(s, 13) == lval(s, 12) + bit1(s[12]) * pow2(12));
    assert(lval(s, 14) == lval(s, 13) + bit1(s[13]) * pow2(13));
    assert(lval(s, 15) == lval(s, 14) + bit1(s[14]) * pow2(14));
}

/// An unsigned word value always fits in 16 bits.
pub proof fn lemma_uval16_bound(s: Seq<bool>)
    ensures
        uval16(s) < 65536,
{
}

/// A word has unsigned value zero exactly when every bit is clear.
pub proof fn lemma_uval16_zero(s: Seq<bool>)
    requires
        s.len() == 16,
    ensures
        (uval16(s) == 0) <==> (s =~= zero16()),
{
}

/// Two 16-bit words with the same unsigned value are the same word.
#[verifier::rlimit(100)]
#[verifier::spinoff_prover]
pub proof fn lemma_uval16_injective(a: Seq<bool>, b: Seq<bool>)
    requires
        a.len() == 16,
        b.len() == 16,
        uval16(a) == uval16(b),
    ensures
        a =~= b,
{
    assert(a[15] == b[15]);
    assert(a[14] == b[14]);
    assert(a[13] == b[13]);
    assert(a[12] == b[12]);
    assert(a[11] == b[11]);
    assert(a[10] == b[10]);
    assert(a[9] == b[9]);
    assert(a[8] == b[8]);
    assert(a[7] == b[7]);
    assert(a[6] == b[6]);
    assert(a[5] == b[5]);
    assert(a[4] == b[4]);
    assert(a[3] == b[3]);
    assert(a[2] == b[2]);
    assert(a[1] == b[1]);
    assert(a[0] == b[0]);
}

/// Two 16-bit words with the same signed value are the same word.
pub proof fn lemma_ival16_injective(a: Seq<bool>, b: Seq<bool>)
    requires
        a.len() == 16,
        b.len() == 16,
        ival16(a) == ival16(b),
    ensures
        a =~= b,
{
    if a[15] == b[15] {
        lemma_uval16_injective(a, b);
    } else {
        assert(false);
    }
}

} // verus!
