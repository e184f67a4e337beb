//! The arithmetic-logic unit: one combinational chip, steered by six
//! control bits, that realizes every operation the CPU needs.
//!
//! Control semantics, applied in order: `zx` zeroes the x operand, `nx`
//! complements it, `zy`/`ny` do the same for y, `f` selects addition
//! modulo 2^16 (else bitwise AND), and `no` complements the result.
//! The `zr` flag reports an all-zero result, `ng` the sign bit.

use crate::adder::{add16s, adder_b16, lemma_add16s_val};
use crate::gates::{and16, mux16, not, not16, or};
use crate::word::{
    bit1, ival16, lemma_uval16_bound, lemma_uval16_injective, lemma_uval16_zero, one16, uval16,
    zero16,
};
use vstd::prelude::*;

verus! {

/// Bitwise complement at the specification level.
pub open spec fn not16s(s: Seq<bool>) -> Seq<bool> {
    Seq::new(16, |i: int| !s[i])
}

/// Bitwise conjunction at the specification level.
pub open spec fn and16s(a: Seq<bool>, b: Seq<bool>) -> Seq<bool> {
    Seq::new(16, |i: int| a[i] && b[i])
}

/// Operand conditioning: optionally zero a word, then optionally
/// complement it.
pub open spec fn xform16(s: Seq<bool>, zero: bool, negate: bool) -> Seq<bool> {
    let t = if zero {
        zero16()
    } else {
        s
    };
    if negate {
        not16s(t)
    } else {
        t
    }
}

/// The word the ALU emits for the given operands and control bits.
pub open spec fn alu16_spec(
    x: Seq<bool>,
    y: Seq<bool>,
    zx: bool,
    nx: bool,
    zy: bool,
    ny: bool,
    f: bool,
    no: bool,
) -> Seq<bool> {
    let xs = xform16(x, zx, nx);
    let ys = xform16(y, zy, ny);
    let pre = if f {
        add16s(xs, ys)
    } else {
        and16s(xs, ys)
    };
    if no {
        not16s(pre)
    } else {
        pre
    }
}

/// Complementing a word mirrors its value around 65535.
#[verifier::rlimit(100)]
pub proof fn lemma_not16s_val(s: Seq<bool>)
    requires
        s.len() == 16,
    ensures
        uval16(not16s(s)) == 65535 - uval16(s),
{
    assert(forall|i: int| 0 <= i < 16 ==> not16s(s)[i] == !s[i]);
}

/// Conditions one ALU operand: optionally zero it, then optionally
/// complement it, as the `zx`/`nx` (or `zy`/`ny`) control bits demand.
pub fn condition16(s: [bool; 16], zero: bool, negate: bool) -> (r: [bool; 16])
    ensures
        r@.len() == 16,
        r@ == xform16(s@, zero, negate),
{
    let z: [bool; 16] = [false; 16];
    let t = mux16(s, z, zero);
    let nt = not16(t);
    let r = mux16(t, nt, negate);
    proof {
        assert(r@ =~= xform16(s@, zero, negate));
    }
    r
}

/// OR-reduction of a word followed by a NOT: true exactly when every
/// bit of the word is clear, which is also value zero.
pub fn is_zero16(w: [bool; 16]) -> (z: bool)
    ensures
        z == (uval16(w@) == 0),
        z == (forall|i: int| 0 <= i < 16 ==> !w@[i]),
{
    let mut any: bool = false;
    let mut i: usize = 0;
    while i < 16
        invariant
            i <= 16,
            any == !(forall|j: int| 0 <= j < i ==> !w@[j]),
        decreases 16 - i,
    {
        any = or(any, w[i]);
        i = i + 1;
    }
    let z = not(any);
    proof {
        lemma_uval16_zero(w@);
        if z {
            assert(w@ =~= zero16());
        } else {
            assert(uval16(w@) != 0);
        }
    }
    z
}

/// The 16-bit ALU.  Returns the result word together with the `zr`
/// (result is all-zero) and `ng` (sign bit set) status flags.
#[verifier::rlimit(100)]
pub fn alu(
    x: [bool; 16],
    y: [bool; 16],
    zx: bool,
    nx: bool,
    zy: bool,
    ny: bool,
    f: bool,
    no: bool,
) -> (r: ([bool; 16], bool, bool))
    ensures
        r.0@.len() == 16,
        r.0@ == alu16_spec(x@, y@, zx, nx, zy, ny, f, no),
        r.1 == (uval16(r.0@) == 0),
        r.1 == (forall|i: int| 0 <= i < 16 ==> !r.0@[i]),
        r.2 == r.0@[15],
{
    let x2 = condition16(x, zx, nx);
    let y2 = condition16(y, zy, ny);
    let anded = and16(x2, y2);
    let added = adder_b16(x2, y2);
    let pre = mux16(anded, added, f);
    let npre = not16(pre);
    let out = mux16(pre, npre, no);
    proof {
        assert(anded@ =~= and16s(x2@, y2@));
        assert(out@ =~= alu16_spec(x@, y@, zx, nx, zy, ny, f, no));
    }
    let zr = is_zero16(out);
    let ng = out[15];
    (out, zr, ng)
}

/// With controls 1,0,1,0,1,0 the ALU emits the constant zero word,
/// whatever its operands are.
pub proof fn lemma_alu_constant_zero(x: Seq<bool>, y: Seq<bool>)
    requires
        x.len() == 16,
        y.len() == 16,
    ensures
        alu16_spec(x, y, true, false, true, false, true, false) =~= zero16(),
{
    let s = add16s(zero16(), zero16());
    lemma_add16s_val(zero16(), zero16());
    assert(uval16(zero16()) == 0);
    lemma_uval16_zero(s);
}

/// With all six controls set the ALU emits the constant one word.
pub proof fn lemma_alu_constant_one(x: Seq<bool>, y: Seq<bool>)
    requires
        x.len() == 16,
        y.len() == 16,
    ensures
        alu16_spec(x, y, true, true, true, true, true, true) =~= one16(),
{
    let ones = not16s(zero16());
    assert(uval16(zero16()) == 0);
    lemma_not16s_val(zero16());
    lemma_add16s_val(ones, ones);
    let s = add16s(ones, ones);
    assert(uval16(s) == (65535 + 65535) % 65536);
    assert(uval16(s) == 65534) by {
        vstd::arithmetic::div_mod::lemma_mod_multiples_vanish(1, 65534, 65536);
        vstd::arithmetic::div_mod::lemma_small_mod(65534, 65536);
    }
    lemma_not16s_val(s);
    assert(uval16(not16s(s)) == 1);
    assert(uval16(one16()) == 1);
    lemma_uval16_injective(not16s(s), one16());
}

/// With controls 0,0,1,1,0,0 the ALU passes its x operand through
/// unchanged, whatever y is.
pub proof fn lemma_alu_pass_x(x: Seq<bool>, y: Seq<bool>)
    requires
        x.len() == 16,
        y.len() == 16,
    ensures
        alu16_spec(x, y, false, false, true, true, false, false) =~= x,
{
}

/// With controls 0,0,0,0,1,0 the ALU adds its operands modulo 2^16.
pub proof fn lemma_alu_add(x: Seq<bool>, y: Seq<bool>)
    requires
        x.len() == 16,
        y.len() == 16,
    ensures
        uval16(alu16_spec(x, y, false, false, false, false, true, false)) == (uval16(x) + uval16(
            y,
        )) % 65536,
{
    lemma_add16s_val(x, y);
}

/// With controls 0,1,0,0,1,1 the ALU subtracts y from x modulo 2^16:
/// complementing x, adding y and complementing the sum realizes
/// two's-complement subtraction.
#[verifier::rlimit(100)]
pub proof fn lemma_alu_sub(x: Seq<bool>, y: Seq<bool>)
    requires
        x.len() == 16,
        y.len() == 16,
    ensures
        uval16(alu16_spec(x, y, false, true, false, false, true, true)) == (uval16(x) as int
            - uval16(y) as int) % 65536,
{
    let xv = uval16(x) as int;
    let yv = uval16(y) as int;
    lemma_uval16_bound(x);
    lemma_uval16_bound(y);
    lemma_not16s_val(x);
    let xs = not16s(x);
    lemma_add16s_val(xs, y);
    let s = add16s(xs, y);
    lemma_uval16_bound(s);
    lemma_not16s_val(s);
    if yv <= xv {
        assert(uval16(s) == 65535 - xv + yv) by {
            vstd::arithmetic::div_mod::lemma_small_mod((65535 - xv + yv) as nat, 65536);
        }
        assert(uval16(not16s(s)) == xv - yv);
        assert((xv - yv) % 65536 == xv - yv) by {
            vstd::arithmetic::div_mod::lemma_small_mod((xv - yv) as nat, 65536);
        }
    } else {
        assert(uval16(s) == yv - xv - 1) by {
            vstd::arithmetic::div_mod::lemma_mod_multiples_vanish(1, yv - xv - 1, 65536);
            vstd::arithmetic::div_mod::lemma_small_mod((yv - xv - 1) as nat, 65536);
        }
        assert(uval16(not16s(s)) == 65536 - (yv - xv));
        assert((xv - yv) % 65536 == 65536 + xv - yv) by {
            vstd::arithmetic::div_mod::lemma_mod_multiples_vanish(1, xv - yv, 65536);
            vstd::arithmetic::div_mod::lemma_small_mod((65536 + xv - yv) as nat, 65536);
        }
    }
}

/// Signed reading of the flags: `ng` reports exactly the words whose
/// two's-complement value is negative.
pub proof fn lemma_ng_is_negative(s: Seq<bool>)
    requires
        s.len() == 16,
    ensures
        s[15] <==> ival16(s) < 0,
{
    lemma_uval16_bound(s);
}

} // verus!
