//! The architected register file: 32 general-purpose registers and `pc`.

use vstd::prelude::*;
use crate::bits::{wadd, wrap_add};
use crate::memory::{lemma_le_word, word_at};

verus! {

/// The value that register `i` reads as: register 0 always reads 0.
pub open spec fn reg(x: Seq<u32>, i: u32) -> u32 {
    if i == 0 {
        0
    } else {
        x[i as int]
    }
}

/// The registers after writing `v` to register `i`: a write to register 0
/// changes nothing.
pub open spec fn set_reg(x: Seq<u32>, i: u32, v: u32) -> Seq<u32> {
    if i == 0 {
        x
    } else {
        x.update(i as int, v)
    }
}

/// The general-purpose registers `x` and the program counter `pc`.
#[derive(Debug)]
pub struct Regfile {
    pub x: [u32; 32],
    pub pc: u32,
}

impl Regfile {
    /// Register 0 holds zero.
    pub open spec fn wf(&self) -> bool {
        self.x@[0] == 0
    }

    /// A register file at `pc` with `sp` in register 2 and zero elsewhere.
    pub fn new(pc: u32, sp: u32) -> (r: Regfile)
        ensures
            r.pc == pc,
            r.x@ == Seq::new(32, |i: int| if i == 2 { sp } else { 0u32 }),
            r.wf(),
    {
        let mut x: [u32; 32] = [0; 32];
        x[2] = sp;
        let r = Regfile { x: x, pc: pc };
        assert(r.x@ =~= Seq::new(32, |i: int| if i == 2 { sp } else { 0u32 }));
        r
    }

    /// Reads register `i`; register 0 reads 0 whatever it holds.
    pub fn read(&self, i: usize) -> (r: u32)
        requires
            i < 32,
        ensures
            r == reg(self.x@, i as u32),
    {
        if i == 0 {
            0
        } else {
            self.x[i]
        }
    }

    /// Writes `v` to register `i`; a write to register 0 is discarded.
    pub fn write(&mut self, i: usize, v: u32)
        requires
            i < 32,
        ensures
            final(self).x@ == set_reg(old(self).x@, i as u32, v),
            final(self).pc == old(self).pc,
    {
        if i != 0 {
            self.x[i] = v;
        }
        assert(self.x@ =~= set_reg(old(self).x@, i as u32, v));
    }

    /// The little-endian instruction word at `pc` in `imem`.
    pub fn get_next_instr(&self, imem: &Vec<u8>) -> (r: u32)
        requires
            self.pc + 4 <= imem@.len(),
        ensures
            r == word_at(imem@, self.pc as int),
    {
        let pc = self.pc as usize;
        assert(pc + 3 < imem.len());
        proof {
            lemma_le_word(imem@[pc as int], imem@[pc + 1], imem@[pc + 2], imem@[pc + 3]);
        }
        ((imem[pc + 3] as u32) << 24) | ((imem[pc + 2] as u32) << 16) | ((imem[pc + 1] as u32) << 8)
            | (imem[pc] as u32)
    }

    /// Advances `pc` by `val`, wrapping modulo 2^32.
    pub fn add_pc(&mut self, val: u32)
        ensures
            final(self).pc == wrap_add(old(self).pc, val),
            final(self).x == old(self).x,
    {
        self.pc = wadd(self.pc, val);
    }
}

/// Register 0 is wired to zero: after any write to it, every register reads
/// as before and register 0 reads 0.
pub proof fn lemma_x0_ignores_writes(x: Seq<u32>, v: u32)
    ensures
        set_reg(x, 0, v) == x,
        reg(set_reg(x, 0, v), 0) == 0,
{
}

} // verus!
