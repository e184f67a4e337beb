//! Primitive bit gates and the word-wide gates built from them.
//!
//! The four single-bit gates are the only primitives of the whole
//! machine; every wider chip replicates them across the 16 lanes of a
//! word.

use vstd::prelude::*;

verus! {

/// NOT gate on a single bit.
pub fn not(a: bool) -> (r: bool)
    ensures
        r == !a,
{
    !a
}

/// AND gate on a pair of bits.
pub fn and(a: bool, b: bool) -> (r: bool)
    ensures
        r == (a && b),
{
    a && b
}

/// OR gate on a pair of bits.
pub fn or(a: bool, b: bool) -> (r: bool)
    ensures
        r == (a || b),
{
    a || b
}

/// NOR gate on a pair of bits.
pub fn nor(a: bool, b: bool) -> (r: bool)
    ensures
        r == !(a || b),
{
    !(a || b)
}

/// Bitwise NOT across a 16-bit word.
pub fn not16(a: [bool; 16]) -> (r: [bool; 16])
    ensures
        r@.len() == 16,
        forall|i: int| 0 <= i < 16 ==> r@[i] == !a@[i],
{
    let mut r: [bool; 16] = [false; 16];
    let mut i: usize = 0;
    while i < 16
        invariant
            i <= 16,
            r@.len() == 16,
            forall|j: int| 0 <= j < i ==> r@[j] == !a@[j],
        decreases 16 - i,
    {
        r[i] = not(a[i]);
        i = i + 1;
    }
    r
}

/// Bitwise AND across two 16-bit words.
pub fn and16(a: [bool; 16], b: [bool; 16]) -> (r: [bool; 16])
    ensures
        r@.len() == 16,
        forall|i: int| 0 <= i < 16 ==> r@[i] == (a@[i] && b@[i]),
{
    let mut r: [bool; 16] = [false; 16];
    let mut i: usize = 0;
    while i < 16
        invariant
            i <= 16,
            r@.len() == 16,
            forall|j: int| 0 <= j < i ==> r@[j] == (a@[j] && b@[j]),
        decreases 16 - i,
    {
        r[i] = and(a[i], b[i]);
        i = i + 1;
    }
    r
}

/// Bitwise OR across two 16-bit words.
pub fn or16(a: [bool; 16], b: [bool; 16]) -> (r: [bool; 16])
    ensures
        r@.len() == 16,
        forall|i: int| 0 <= i < 16 ==> r@[i] == (a@[i] || b@[i]),
{
    let mut r: [bool; 16] = [false; 16];
    let mut i: usize = 0;
    while i < 16
        invariant
            i <= 16,
            r@.len() == 16,
            forall|j: int| 0 <= j < i ==> r@[j] == (a@[j] || b@[j]),
        decreases 16 - i,
    {
        r[i] = or(a[i], b[i]);
        i = i + 1;
    }
    r
}

/// Two-way 16-bit multiplexer: emits `a` while `sel` is false, else `b`.
pub fn mux16(a: [bool; 16], b: [bool; 16], sel: bool) -> (r: [bool; 16])
    ensures
        r@ == if sel {
            b@
        } else {
            a@
        },
{
    let mut r: [bool; 16] = [false; 16];
    let mut i: usize = 0;
    while i < 16
        invariant
            i <= 16,
            r@.len() == 16,
            forall|j: int| 0 <= j < i ==> r@[j] == (if sel {
                b@[j]
            } else {
                a@[j]
            }),
        decreases 16 - i,
    {
        let bit = if sel {
            b[i]
        } else {
            a[i]
        };
        r[i] = bit;
        i = i + 1;
    }
    proof {
        if sel {
            assert(r@ =~= b@);
        } else {
            assert(r@ =~= a@);
        }
    }
    r
}

/// Four-way 16-bit multiplexer, decoded by two cascaded `mux16` levels.
/// `sel[0]` is the low selector bit, `sel[1]` the high one.
pub fn mux4way16(a: [bool; 16], b: [bool; 16], c: [bool; 16], d: [bool; 16], sel: [bool; 2]) -> (r:
    [bool; 16])
    ensures
        r@ == if sel@[1] {
            if sel@[0] {
                d@
            } else {
                c@
            }
        } else {
            if sel@[0] {
                b@
            } else {
                a@
            }
        },
{
    let low = mux16(a, b, sel[0]);
    let high = mux16(c, d, sel[0]);
    mux16(low, high, sel[1])
}

} // verus!
