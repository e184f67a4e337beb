//! Bidirectional conversion between signed 16-bit integers, decimal and
//! binary text, and 16-wide bit vectors.
//!
//! A conversion yields a [`ConvertResult`] bundling the word with its
//! signed value, its unsigned index, and uppercase-hex and binary text
//! renderings (most-significant bit first).  Only the two text parsers
//! can fail; every other direction is total.

use crate::word::{
    bit1, ival16, lemma_lval16_eq_uval16, lemma_lval_agree, lemma_lval_bound, lemma_uval16_bound,
    lval, uval16,
};
use vstd::arithmetic::power2::{
    lemma2_to64, lemma_pow2_strictly_increases, lemma_pow2_unfold, pow2,
};
use vstd::prelude::*;
use vstd::string::{StrSliceExecFns, StringExecFns};

verus! {

/// A 16-bit word together with every representation the library and
/// its callers read: signed integer, unsigned index, hex text and
/// binary text.
#[derive(Debug)]
pub struct ConvertResult {
    /// The word itself, least-significant bit at index 0.
    pub as_array_b16: [bool; 16],
    /// Two's-complement reading of the word.
    pub as_integer: i16,
    /// Unsigned reading of the word, usable as an index.
    pub as_usize: usize,
    /// `0x` followed by four uppercase hex digits, most significant first.
    pub as_string_hex: String,
    /// Sixteen `0`/`1` characters, most-significant bit first.
    pub as_string_bin: String,
}

/// The character a single bit prints as.
pub open spec fn bin_char(b: bool) -> char {
    if b {
        '1'
    } else {
        '0'
    }
}

/// Binary rendering of a word: sixteen characters, bit 15 first.
pub open spec fn bin_str16(w: Seq<bool>) -> Seq<char> {
    Seq::new(16, |j: int| bin_char(w[15 - j]))
}

/// The word a sixteen-character binary string denotes; any character
/// other than `1` reads as a clear bit.
pub open spec fn word_of_bin(s: Seq<char>) -> Seq<bool> {
    Seq::new(16, |i: int| s[15 - i] == '1')
}

/// Uppercase hex digit for a value below sixteen.
pub open spec fn hex_digit_char(d: int) -> char {
    if d == 0 {
        '0'
    } else if d == 1 {
        '1'
    } else if d == 2 {
        '2'
    } else if d == 3 {
        '3'
    } else if d == 4 {
        '4'
    } else if d == 5 {
        '5'
    } else if d == 6 {
        '6'
    } else if d == 7 {
        '7'
    } else if d == 8 {
        '8'
    } else if d == 9 {
        '9'
    } else if d == 10 {
        'A'
    } else if d == 11 {
        'B'
    } else if d == 12 {
        'C'
    } else if d == 13 {
        'D'
    } else if d == 14 {
        'E'
    } else {
        'F'
    }
}

/// Hex rendering of a word: `0x` then four uppercase digits of its
/// unsigned value, most significant first.
pub open spec fn hex_str16(w: Seq<bool>) -> Seq<char> {
    let u = uval16(w) as int;
    seq![
        '0',
        'x',
        hex_digit_char(u / 4096),
        hex_digit_char((u / 256) % 16),
        hex_digit_char((u / 16) % 16),
        hex_digit_char(u % 16),
    ]
}

/// Every field of a [`ConvertResult`] agrees with its word.
pub open spec fn conv_ok(r: ConvertResult) -> bool {
    let w = r.as_array_b16@;
    &&& w.len() == 16
    &&& r.as_integer as int == ival16(w)
    &&& r.as_usize as nat == uval16(w)
    &&& r.as_string_hex@ == hex_str16(w)
    &&& r.as_string_bin@ == bin_str16(w)
}

/// Unsigned value of a word as a machine integer.
pub(crate) fn word_to_u16(w: &[bool; 16]) -> (u: u16)
    ensures
        u as nat == uval16(w@),
{
    let mut acc: u32 = 0;
    let mut pw: u32 = 1;
    let mut i: usize = 0;
    proof {
        lemma2_to64();
    }
    while i < 16
        invariant
            i <= 16,
            acc as nat == lval(w@, i as int),
            pw as nat == pow2(i as nat),
            pw <= 65536,
        decreases 16 - i,
    {
        proof {
            lemma_lval_bound(w@, i as int);
            if (i as int) < 15 {
                lemma_pow2_strictly_increases(i as nat, 15);
            }
            lemma2_to64();
        }
        if w[i] {
            acc = acc + pw;
        }
        proof {
            lemma_pow2_unfold((i + 1) as nat);
        }
        pw = pw * 2;
        i = i + 1;
    }
    proof {
        lemma_lval16_eq_uval16(w@);
        lemma_uval16_bound(w@);
    }
    acc as u16
}

/// Two's-complement reading of a word as an `i16`.
pub(crate) fn word_to_i16(w: &[bool; 16]) -> (n: i16)
    ensures
        n as int == ival16(w@),
{
    let u = word_to_u16(w);
    proof {
        lemma_uval16_bound(w@);
    }
    if u < 32768 {
        u as i16
    } else {
        ((u as i32) - 65536) as i16
    }
}

/// The unique word whose two's-complement value is `n`.
pub(crate) fn i16_to_word(n: i16) -> (w: [bool; 16])
    ensures
        w@.len() == 16,
        ival16(w@) == n as int,
        uval16(w@) == if n >= 0 {
            n as nat
        } else {
            (n + 65536) as nat
        },
{
    let u: u16 = if n >= 0 {
        n as u16
    } else {
        ((n as i32) + 65536) as u16
    };
    let mut w: [bool; 16] = [false; 16];
    let mut rem: u16 = u;
    let mut i: usize = 0;
    proof {
        lemma2_to64();
    }
    while i < 16
        invariant
            i <= 16,
            w@.len() == 16,
            u as nat == lval(w@, i as int) + (rem as nat) * pow2(i as nat),
        decreases 16 - i,
    {
        let ghost w_old = w@;
        let ghost rem_old = rem;
        let b = rem % 2 == 1;
        w[i] = b;
        rem = rem / 2;
        proof {
            lemma_lval_agree(w_old, w@, i as int);
            assert(lval(w@, i as int + 1) == lval(w@, i as int) + bit1(b) * pow2(i as nat));
            lemma_pow2_unfold((i + 1) as nat);
            assert(rem_old as nat == 2 * (rem as nat) + bit1(b));
            assert((rem_old as nat) * pow2(i as nat) == (rem as nat) * pow2((i + 1) as nat) + bit1(
                b,
            ) * pow2(i as nat)) by (nonlinear_arith)
                requires
                    rem_old as nat == 2 * (rem as nat) + bit1(b),
                    pow2((i + 1) as nat) == 2 * pow2(i as nat),
            ;
        }
        i = i + 1;
    }
    proof {
        lemma2_to64();
        assert((rem as nat) * pow2(16) == (rem as nat) * 65536) by (nonlinear_arith)
            requires
                pow2(16) == 65536,
        ;
        assert(rem == 0);
        lemma_lval16_eq_uval16(w@);
        assert(uval16(w@) == u as nat);
    }
    w
}

/// Appends the uppercase hex digit of a value below sixteen.
fn push_hex_digit(s: &mut String, d: u16)
    requires
        d < 16,
    ensures
        final(s)@ == old(s)@.push(hex_digit_char(d as int)),
{
    if d == 0 {
        s.append("0");
        proof {
            reveal_strlit("0");
            assert(final(s)@ =~= old(s)@.push(hex_digit_char(d as int)));
        }
    } else if d == 1 {
        s.append("1");
        proof {
            reveal_strlit("1");
            assert(final(s)@ =~= old(s)@.push(hex_digit_char(d as int)));
        }
    } else if d == 2 {
        s.append("2");
        proof {
            reveal_strlit("2");
            assert(final(s)@ =~= old(s)@.push(hex_digit_char(d as int)));
        }
    } else if d == 3 {
        s.append("3");
        proof {
            reveal_strlit("3");
            assert(final(s)@ =~= old(s)@.push(hex_digit_char(d as int)));
        }
    } else if d == 4 {
        s.append("4");
        proof {
            reveal_strlit("4");
            assert(final(s)@ =~= old(s)@.push(hex_digit_char(d as int)));
        }
    } else if d == 5 {
        s.append("5");
        proof {
            reveal_strlit("5");
            assert(final(s)@ =~= old(s)@.push(hex_digit_char(d as int)));
        }
    } else if d == 6 {
        s.append("6");
        proof {
            reveal_strlit("6");
            assert(final(s)@ =~= old(s)@.push(hex_digit_char(d as int)));
        }
    } else if d == 7 {
        s.append("7");
        proof {
            reveal_strlit("7");
            assert(final(s)@ =~= old(s)@.push(hex_digit_char(d as int)));
        }
    } else if d == 8 {
        s.append("8");
        proof {
            reveal_strlit("8");
            assert(final(s)@ =~= old(s)@.push(hex_digit_char(d as int)));
        }
    } else if d == 9 {
        s.append("9");
        proof {
            reveal_strlit("9");
            assert(final(s)@ =~= old(s)@.push(hex_digit_char(d as int)));
        }
    } else if d == 10 {
        s.append("A");
        proof {
            reveal_strlit("A");
            assert(final(s)@ =~= old(s)@.push(hex_digit_char(d as int)));
        }
    } else if d == 11 {
        s.append("B");
        proof {
            reveal_strlit("B");
            assert(final(s)@ =~= old(s)@.push(hex_digit_char(d as int)));
        }
    } else if d == 12 {
        s.append("C");
        proof {
            reveal_strlit("C");
            assert(final(s)@ =~= old(s)@.push(hex_digit_char(d as int)));
        }
    } else if d == 13 {
        s.append("D");
        proof {
            reveal_strlit("D");
            assert(final(s)@ =~= old(s)@.push(hex_digit_char(d as int)));
        }
    } else if d == 14 {
        s.append("E");
        proof {
            reveal_strlit("E");
            assert(final(s)@ =~= old(s)@.push(hex_digit_char(d as int)));
        }
    } else {
        s.append("F");
        proof {
            reveal_strlit("F");
            assert(final(s)@ =~= old(s)@.push(hex_digit_char(d as int)));
        }
    }
}

/// Renders a word as sixteen `0`/`1` characters, bit 15 first.
pub fn b16_to_byte_string(b16: [bool; 16]) -> (r: String)
    ensures
        r@ == bin_str16(b16@),
{
    let mut s = String::new();
    let mut j: usize = 0;
    while j < 16
        invariant
            j <= 16,
            s@.len() == j,
            forall|k: int| 0 <= k < j ==> s@[k] == bin_char(b16@[15 - k]),
        decreases 16 - j,
    {
        if b16[15 - j] {
            s.append("1");
            proof {
                reveal_strlit("1");
            }
        } else {
            s.append("0");
            proof {
                reveal_strlit("0");
            }
        }
        j = j + 1;
    }
    proof {
        assert(s@ =~= bin_str16(b16@));
    }
    s
}

/// Reads a sixteen-character string as a word, bit 15 first; any
/// character other than `1` reads as a clear bit.
pub fn byte_string_to_b16(byte_string: String) -> (r: [bool; 16])
    requires
        byte_string@.len() == 16,
    ensures
        r@ == word_of_bin(byte_string@),
{
    let mut w: [bool; 16] = [false; 16];
    let mut i: usize = 0;
    while i < 16
        invariant
            i <= 16,
            w@.len() == 16,
            byte_string@.len() == 16,
            forall|k: int| 0 <= k < i ==> w@[k] == (byte_string@[15 - k] == '1'),
        decreases 16 - i,
    {
        let c = byte_string.as_str().get_char(15 - i);
        w[i] = c == '1';
        i = i + 1;
    }
    proof {
        assert(w@ =~= word_of_bin(byte_string@));
    }
    w
}

/// Builds the full bundle of representations for a word.
fn make_result(b16: [bool; 16]) -> (r: ConvertResult)
    ensures
        conv_ok(r),
        r.as_array_b16 == b16,
{
    let n = word_to_i16(&b16);
    let u = word_to_u16(&b16);
    proof {
        lemma_uval16_bound(b16@);
    }
    let mut hex = String::new();
    hex.append("0x");
    push_hex_digit(&mut hex, u / 4096);
    push_hex_digit(&mut hex, (u / 256) % 16);
    push_hex_digit(&mut hex, (u / 16) % 16);
    push_hex_digit(&mut hex, u % 16);
    proof {
        reveal_strlit("0x");
        assert(hex@ =~= hex_str16(b16@));
    }
    let bin = b16_to_byte_string(b16);
    ConvertResult {
        as_array_b16: b16,
        as_integer: n,
        as_usize: u as usize,
        as_string_hex: hex,
        as_string_bin: bin,
    }
}

/// Total conversion from a word to all of its representations.
pub fn from_b16(b16: [bool; 16]) -> (r: Result<ConvertResult, String>)
    ensures
        r matches Ok(cr) && conv_ok(cr) && cr.as_array_b16 == b16,
{
    Ok(make_result(b16))
}

/// Total conversion from a signed integer to all representations of
/// the unique word holding its two's-complement encoding.
pub fn from_i16(integer: i16) -> (r: Result<ConvertResult, String>)
    ensures
        r matches Ok(cr) && conv_ok(cr) && ival16(cr.as_array_b16@) == integer as int,
{
    let w = i16_to_word(integer);
    Ok(make_result(w))
}

/// Parses a sixteen-character binary string.  Fails exactly when the
/// string is not sixteen characters long or holds a character other
/// than `0` or `1`.
pub fn from_string_binary(text: String) -> (r: Result<ConvertResult, String>)
    ensures
        (r is Ok) <==> (text@.len() == 16 && (forall|i: int|
            0 <= i < 16 ==> text@[i] == '0' || text@[i] == '1')),
        r matches Ok(cr) ==> conv_ok(cr) && cr.as_array_b16@ == word_of_bin(text@),
{
    let len = text.as_str().unicode_len();
    if len != 16 {
        return Err(String::from_str("cannot convert the binary text: it is not 16 bits long"));
    }
    let mut i: usize = 0;
    while i < 16
        invariant
            i <= 16,
            text@.len() == 16,
            forall|k: int| 0 <= k < i ==> text@[k] == '0' || text@[k] == '1',
        decreases 16 - i,
    {
        let c = text.as_str().get_char(i);
        if !(c == '0' || c == '1') {
            return Err(
                String::from_str("cannot convert the binary text: it holds non-binary characters"),
            );
        }
        i = i + 1;
    }
    let w = byte_string_to_b16(text);
    Ok(make_result(w))
}

/// Whether a character is a decimal digit.
pub open spec fn is_dec_digit(c: char) -> bool {
    48 <= c as int <= 57
}

/// Numeric weight of a character, zero for anything but a digit.
pub open spec fn digit_val(c: char) -> nat {
    if is_dec_digit(c) {
        (c as int - 48) as nat
    } else {
        0
    }
}

/// Value of a digit string read most-significant first; non-digits
/// weigh nothing.
pub open spec fn dec_val(s: Seq<char>) -> nat
    decreases s.len(),
{
    if s.len() == 0 {
        0
    } else {
        dec_val(s.drop_last()) * 10 + digit_val(s.last())
    }
}

/// The digits of a decimal string: everything after an optional
/// leading sign.
pub open spec fn dec_body(s: Seq<char>) -> Seq<char> {
    if s.len() > 0 && (s[0] == '+' || s[0] == '-') {
        s.drop_first()
    } else {
        s
    }
}

/// Whether a decimal string carries a minus sign.
pub open spec fn dec_negative(s: Seq<char>) -> bool {
    s.len() > 0 && s[0] == '-'
}

/// A decimal string denoting a 16-bit signed integer: an optional
/// sign, at least one digit, no other characters, and a value in the
/// `i16` range.
pub open spec fn valid_i16_decimal(s: Seq<char>) -> bool {
    &&& dec_body(s).len() > 0
    &&& forall|i: int| 0 <= i < dec_body(s).len() ==> is_dec_digit(#[trigger] dec_body(s)[i])
    &&& (if dec_negative(s) {
        dec_val(dec_body(s)) <= 32768
    } else {
        dec_val(dec_body(s)) <= 32767
    })
}

/// The signed value a valid decimal string denotes.
pub open spec fn decimal_value(s: Seq<char>) -> int {
    if dec_negative(s) {
        -(dec_val(dec_body(s)) as int)
    } else {
        dec_val(dec_body(s)) as int
    }
}

/// A digit string is worth at least any of its prefixes.
pub proof fn lemma_dec_val_prefix_le(s: Seq<char>, i: int)
    requires
        0 <= i <= s.len(),
    ensures
        dec_val(s.take(i)) <= dec_val(s),
    decreases s.len() - i,
{
    if i < s.len() {
        lemma_dec_val_prefix_le(s, i + 1);
        assert(s.take(i + 1).drop_last() =~= s.take(i));
        assert(dec_val(s.take(i + 1)) == dec_val(s.take(i)) * 10 + digit_val(s.take(i + 1).last()));
    } else {
        assert(s.take(i) =~= s);
    }
}

/// Parses a decimal string as a 16-bit signed integer.  Fails exactly
/// when the string, after an optional sign, is empty, holds a
/// non-digit, or denotes a value outside the `i16` range.
pub fn from_string_integer(text: String) -> (r: Result<ConvertResult, String>)
    ensures
        (r is Ok) <==> valid_i16_decimal(text@),
        r matches Ok(cr) ==> conv_ok(cr) && ival16(cr.as_array_b16@) == decimal_value(text@),
{
    let len = text.as_str().unicode_len();
    let mut negative: bool = false;
    let mut start: usize = 0;
    if len > 0 {
        let c0 = text.as_str().get_char(0);
        if c0 == '-' {
            negative = true;
            start = 1;
        } else if c0 == '+' {
            start = 1;
        }
    }
    proof {
        assert(dec_body(text@) =~= text@.subrange(start as int, len as int));
        assert(negative == dec_negative(text@));
    }
    if start >= len {
        return Err(String::from_str("cannot convert the text: it holds no digits"));
    }
    let ghost body = dec_body(text@);
    let mut acc: u32 = 0;
    let mut i: usize = start;
    while i < len
        invariant
            start <= i <= len,
            start < len,
            len == text@.len(),
            body == dec_body(text@),
            body =~= text@.subrange(start as int, len as int),
            body.len() == len - start,
            acc == dec_val(body.take(i - start)),
            acc <= 32768,
            forall|k: int| 0 <= k < i - start ==> is_dec_digit(#[trigger] body[k]),
        decreases len - i,
    {
        let c = text.as_str().get_char(i);
        let cv = c as u32;
        if cv < 48 || cv > 57 {
            proof {
                assert(body[i - start as int] == c);
                assert(!is_dec_digit(c));
            }
            return Err(String::from_str("cannot convert the text: it holds a non-digit"));
        }
        let d = cv - 48;
        acc = acc * 10 + d;
        proof {
            assert(body.take(i + 1 - start as int).drop_last() =~= body.take(i - start as int));
            assert(body.take(i + 1 - start as int).last() == c);
            assert(acc == dec_val(body.take(i + 1 - start as int)));
        }
        if acc > 32768 {
            proof {
                lemma_dec_val_prefix_le(body, i + 1 - start as int);
                assert(body.take(body.len() as int) =~= body);
                assert(dec_val(body) > 32768);
            }
            return Err(String::from_str("cannot convert the text: the value is out of range"));
        }
        i = i + 1;
    }
    proof {
        assert(body.take(body.len() as int) =~= body);
        assert(acc == dec_val(body));
    }
    if !negative && acc > 32767 {
        return Err(String::from_str("cannot convert the text: the value is out of range"));
    }
    let n: i16 = if negative {
        (-(acc as i32)) as i16
    } else {
        acc as i16
    };
    from_i16(n)
}

/// The binary rendering determines the word: reading the sixteen
/// characters back yields the bits they were printed from.
pub proof fn lemma_bin_str16_round_trip(w: Seq<bool>)
    requires
        w.len() == 16,
    ensures
        word_of_bin(bin_str16(w)) =~= w,
{
}

/// Integer ↔ bit-vector ↔ integer is the identity: in any two
/// well-formed conversion bundles, equal signed integers force equal
/// words, and equal words force equal integers and equal binary and
/// hex renderings.
pub proof fn lemma_conversion_round_trip(a: ConvertResult, b: ConvertResult)
    requires
        conv_ok(a),
        conv_ok(b),
    ensures
        a.as_integer == b.as_integer ==> a.as_array_b16@ =~= b.as_array_b16@,
        a.as_array_b16@ == b.as_array_b16@ ==> a.as_integer == b.as_integer
            && a.as_usize == b.as_usize && a.as_string_bin@ == b.as_string_bin@
            && a.as_string_hex@ == b.as_string_hex@,
{
    if a.as_integer == b.as_integer {
        crate::word::lemma_ival16_injective(a.as_array_b16@, b.as_array_b16@);
    }
}

} // verus!
