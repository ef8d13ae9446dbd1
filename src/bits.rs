//! Bit-field extraction, sign extension and wrapping 32-bit arithmetic.

use vstd::prelude::*;

verus! {

/// The `nbit` bits of `x` that start at bit `shift`, moved down to bit 0.
pub open spec fn field(x: u32, shift: u32, nbit: u32) -> u32 {
    (x >> shift) & (((1u32 << nbit) - 1) as u32)
}

/// `v` with bit `nbit - 1` copied into every bit above it.
pub open spec fn sext(v: u32, nbit: u32) -> u32 {
    if (v >> ((nbit - 1) as u32)) & 1 == 1 {
        v | !(((1u32 << nbit) - 1) as u32)
    } else {
        v
    }
}

/// Two's-complement addition modulo 2^32.
pub open spec fn wrap_add(a: u32, b: u32) -> u32 {
    ((a + b) % 0x1_0000_0000) as u32
}

/// Two's-complement subtraction modulo 2^32.
pub open spec fn wrap_sub(a: u32, b: u32) -> u32 {
    ((a - b + 0x1_0000_0000) % 0x1_0000_0000) as u32
}

/// Returns bits `shift + nbit - 1 ..= shift` of `x`.
pub fn retrieve(x: u32, shift: u32, nbit: u32) -> (r: u32)
    requires
        shift < 32,
        0 < nbit < 32,
    ensures
        r == field(x, shift, nbit),
{
    proof {
        assert(1u32 << nbit >= 1) by (bit_vector)
            requires
                nbit < 32,
        ;
    }
    (x >> shift) & ((1u32 << nbit) - 1)
}

/// Sign-extends the low `nbit` bits of `val` to 32 bits.
pub fn sign_extend(val: u32, nbit: u32) -> (r: u32)
    requires
        0 < nbit < 32,
    ensures
        r == sext(val, nbit),
{
    proof {
        assert(1u32 << nbit >= 1) by (bit_vector)
            requires
                nbit < 32,
        ;
    }
    if (val >> (nbit - 1)) & 1 == 1 {
        val | !((1u32 << nbit) - 1)
    } else {
        val
    }
}

/// Wrapping 32-bit addition.
pub fn wadd(a: u32, b: u32) -> (r: u32)
    ensures
        r == wrap_add(a, b),
{
    a.wrapping_add(b)
}

/// Wrapping 32-bit subtraction.
pub fn wsub(a: u32, b: u32) -> (r: u32)
    ensures
        r == wrap_sub(a, b),
{
    a.wrapping_sub(b)
}

} // verus!
