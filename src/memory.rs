//! Little-endian byte, halfword and word access to a flat memory image.

use vstd::prelude::*;

verus! {

/// The little-endian halfword held by the two bytes of `m` that start at `a`.
pub open spec fn half_at(m: Seq<u8>, a: int) -> u32 {
    (m[a] + 0x100 * m[a + 1]) as u32
}

/// The little-endian word held by the four bytes of `m` that start at `a`.
pub open spec fn word_at(m: Seq<u8>, a: int) -> u32 {
    (m[a] + 0x100 * m[a + 1] + 0x1_0000 * m[a + 2] + 0x100_0000 * m[a + 3]) as u32
}

/// The weight of byte `k` (0 to 3) of a little-endian word.
pub open spec fn byte_weight(k: int) -> int {
    if k == 0 {
        1
    } else if k == 1 {
        0x100
    } else if k == 2 {
        0x1_0000
    } else {
        0x100_0000
    }
}

/// Byte `k` (0 to 3) of `v`, counted from the least significant.
pub open spec fn byte_of(v: u32, k: int) -> u8 {
    ((v as int / byte_weight(k)) % 0x100) as u8
}

/// `m` with its `n` bytes from `a` on replaced by the low `n` bytes of `v`,
/// least significant first.
pub open spec fn store_le(m: Seq<u8>, a: int, n: int, v: u32) -> Seq<u8> {
    Seq::new(m.len(), |i: int| if a <= i < a + n { byte_of(v, i - a) } else { m[i] })
}

pub proof fn lemma_le_word(b0: u8, b1: u8, b2: u8, b3: u8)
    by (bit_vector)
    ensures
        ((b3 as u32) << 24u32) | ((b2 as u32) << 16u32) | ((b1 as u32) << 8u32) | (b0 as u32) == (
        b0 + 0x100 * b1 + 0x1_0000 * b2 + 0x100_0000 * b3),
        ((b1 as u32) << 8u32) | (b0 as u32) == (b0 + 0x100 * b1),
{
}

proof fn lemma_bytes_of(v: u32)
    by (bit_vector)
    ensures
        v & 0xFF == v % 0x100,
        (v >> 8u32) & 0xFF == (v / 0x100) % 0x100,
        (v >> 16u32) & 0xFF == (v / 0x1_0000) % 0x100,
        (v >> 24u32) & 0xFF == (v / 0x100_0000) % 0x100,
{
}

/// The byte at `addr`, zero-extended.
pub fn load_byte(mem: &Vec<u8>, addr: usize) -> (r: u32)
    requires
        addr < mem@.len(),
    ensures
        r == mem@[addr as int] as u32,
{
    mem[addr] as u32
}

/// The little-endian halfword at `addr`, zero-extended.
pub fn load_half(mem: &Vec<u8>, addr: usize) -> (r: u32)
    requires
        addr + 2 <= mem@.len(),
    ensures
        r == half_at(mem@, addr as int),
{
    assert(addr + 1 < mem.len());
    proof {
        lemma_le_word(mem@[addr as int], mem@[addr + 1], 0, 0);
    }
    ((mem[addr + 1] as u32) << 8) | (mem[addr] as u32)
}

/// The little-endian word at `addr`.
pub fn load_word(mem: &Vec<u8>, addr: usize) -> (r: u32)
    requires
        addr + 4 <= mem@.len(),
    ensures
        r == word_at(mem@, addr as int),
{
    assert(addr + 3 < mem.len());
    proof {
        lemma_le_word(mem@[addr as int], mem@[addr + 1], mem@[addr + 2], mem@[addr + 3]);
    }
    ((mem[addr + 3] as u32) << 24) | ((mem[addr + 2] as u32) << 16) | ((mem[addr + 1] as u32) << 8)
        | (mem[addr] as u32)
}

/// Writes the low `n` bytes of `v` (`n` is 1, 2 or 4) from `addr` on,
/// least significant first.
pub fn store(mem: &mut Vec<u8>, addr: usize, n: usize, v: u32)
    requires
        n == 1 || n == 2 || n == 4,
        addr + n <= old(mem)@.len(),
    ensures
        final(mem)@ == store_le(old(mem)@, addr as int, n as int, v),
{
    assert(addr + n <= mem.len());
    proof {
        lemma_bytes_of(v);
    }
    mem[addr] = (v & 0xFF) as u8;
    if n >= 2 {
        mem[addr + 1] = ((v >> 8) & 0xFF) as u8;
    }
    if n == 4 {
        mem[addr + 2] = ((v >> 16) & 0xFF) as u8;
        mem[addr + 3] = ((v >> 24) & 0xFF) as u8;
    }
    assert(mem@ =~= store_le(old(mem)@, addr as int, n as int, v));
}

} // verus!
