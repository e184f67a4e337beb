//! Arithmetic chips: half-adder, full-adder, 16-bit ripple adder and
//! increment, all built from the primitive gates.
//!
//! The ripple adder drops its final carry, so word addition is addition
//! modulo 2^16, exactly as native two's-complement hardware behaves.

use crate::gates::{and, not, or};
use crate::word::{bit1, lemma_uval16_bound, uval16};
use vstd::prelude::*;

verus! {

/// Carry into bit `i` of the ripple addition of `a` and `b`.
pub open spec fn carry16(a: Seq<bool>, b: Seq<bool>, i: int) -> bool
    decreases i,
{
    if i <= 0 {
        false
    } else {
        (a[i - 1] && b[i - 1]) || ((a[i - 1] || b[i - 1]) && carry16(a, b, i - 1))
    }
}

/// Bit-level ripple-carry sum of two 16-bit words.
pub open spec fn add16s(a: Seq<bool>, b: Seq<bool>) -> Seq<bool> {
    Seq::new(16, |i: int| ((a[i] != b[i]) != carry16(a, b, i)))
}

/// Adds one bit to one bit, yielding a sum and a carry bit.
pub fn half_adder(a: bool, b: bool) -> (r: (bool, bool))
    ensures
        bit1(r.0) + 2 * bit1(r.1) == bit1(a) + bit1(b),
        r.0 == (a != b),
        r.1 == (a && b),
{
    let sum = and(or(a, b), not(and(a, b)));
    let carry = and(a, b);
    (sum, carry)
}

/// Adds two bits and a carry-in, yielding a sum and a carry-out.
pub fn full_adder(a: bool, b: bool, cin: bool) -> (r: (bool, bool))
    ensures
        bit1(r.0) + 2 * bit1(r.1) == bit1(a) + bit1(b) + bit1(cin),
        r.0 == ((a != b) != cin),
        r.1 == ((a && b) || ((a || b) && cin)),
{
    let (s1, c1) = half_adder(a, b);
    let (sum, c2) = half_adder(s1, cin);
    let carry = or(c1, c2);
    (sum, carry)
}

/// One ripple stage: sum bit and carry-out obey the full-adder value
/// identity.
pub proof fn lemma_carry_step(a: Seq<bool>, b: Seq<bool>, i: int)
    requires
        a.len() == 16,
        b.len() == 16,
        0 <= i < 16,
    ensures
        bit1(add16s(a, b)[i]) + 2 * bit1(carry16(a, b, i + 1)) == bit1(a[i]) + bit1(b[i]) + bit1(
            carry16(a, b, i),
        ),
{
    assert(add16s(a, b)[i] == ((a[i] != b[i]) != carry16(a, b, i)));
    assert(carry16(a, b, i + 1) == ((a[i] && b[i]) || ((a[i] || b[i]) && carry16(a, b, i))));
}

/// The ripple-carry sum equals addition modulo 2^16 at the value level.
#[verifier::rlimit(100)]
pub proof fn lemma_add16s_val(a: Seq<bool>, b: Seq<bool>)
    requires
        a.len() == 16,
        b.len() == 16,
    ensures
        uval16(add16s(a, b)) == (uval16(a) + uval16(b)) % 65536,
{
    let s = add16s(a, b);
    lemma_carry_step(a, b, 0);
    lemma_carry_step(a, b, 1);
    lemma_carry_step(a, b, 2);
    lemma_carry_step(a, b, 3);
    lemma_carry_step(a, b, 4);
    lemma_carry_step(a, b, 5);
    lemma_carry_step(a, b, 6);
    lemma_carry_step(a, b, 7);
    lemma_carry_step(a, b, 8);
    lemma_carry_step(a, b, 9);
    lemma_carry_step(a, b, 10);
    lemma_carry_step(a, b, 11);
    lemma_carry_step(a, b, 12);
    lemma_carry_step(a, b, 13);
    lemma_carry_step(a, b, 14);
    lemma_carry_step(a, b, 15);
    assert(uval16(s) + 65536 * bit1(carry16(a, b, 16)) == uval16(a) + uval16(b));
    lemma_uval16_bound(s);
    if carry16(a, b, 16) {
        vstd::arithmetic::div_mod::lemma_mod_multiples_vanish(1, uval16(s) as int, 65536);
        vstd::arithmetic::div_mod::lemma_small_mod(uval16(s), 65536);
    } else {
        vstd::arithmetic::div_mod::lemma_small_mod(uval16(s), 65536);
    }
}

/// 16-bit ripple-carry adder; the final carry is discarded, so the
/// result is the sum of the two words modulo 2^16.
#[verifier::rlimit(100)]
pub fn adder_b16(a: [bool; 16], b: [bool; 16]) -> (r: [bool; 16])
    ensures
        r@.len() == 16,
        r@ == add16s(a@, b@),
        uval16(r@) == (uval16(a@) + uval16(b@)) % 65536,
{
    let mut r: [bool; 16] = [false; 16];
    let mut carry: bool = false;
    let mut i: usize = 0;
    while i < 16
        invariant
            i <= 16,
            r@.len() == 16,
            carry == carry16(a@, b@, i as int),
            forall|j: int| 0 <= j < i ==> r@[j] == add16s(a@, b@)[j],
        decreases 16 - i,
    {
        let (s, c) = full_adder(a[i], b[i], carry);
        r[i] = s;
        carry = c;
        proof {
            assert(add16s(a@, b@)[i as int] == ((a@[i as int] != b@[i as int]) != carry16(
                a@,
                b@,
                i as int,
            )));
        }
        i = i + 1;
    }
    proof {
        assert(r@ =~= add16s(a@, b@));
        lemma_add16s_val(a@, b@);
    }
    r
}

/// Increment a 16-bit word by one, modulo 2^16.
pub fn inc16(a: [bool; 16]) -> (r: [bool; 16])
    ensures
        r@.len() == 16,
        r@ == add16s(a@, crate::word::one16()),
        uval16(r@) == (uval16(a@) + 1) % 65536,
{
    let mut one: [bool; 16] = [false; 16];
    one[0] = true;
    proof {
        assert(one@ =~= crate::word::one16());
        assert(uval16(one@) == 1);
    }
    adder_b16(a, one)
}

} // verus!
