//! The execution engine: applies one [`Operand`] to a register file and a
//! memory image.

use vstd::prelude::*;
use crate::bits::{sext, sign_extend, wadd, wrap_add, wrap_sub, wsub};
use crate::decode::{InstrKind, Operand};
use crate::memory::{half_at, load_byte, load_half, load_word, store, store_le, word_at};
use crate::regfile::{reg, set_reg, Regfile};

verus! {

/// What a step tells the driver when it does not fault.
#[derive(Debug, Clone, Copy, PartialEq, Eq, Structural)]
pub enum Signal {
    /// Go on with the instruction at the new `pc`.
    Continue,
    /// Stop: the program asked to end, with this result value (register `a0`).
    Halt(u32),
}

/// Why a step faulted. A faulting step changes neither registers nor memory.
#[derive(Debug, Clone, Copy, PartialEq, Eq, Structural)]
pub enum ExecuteError {
    /// The opcode is known but its `funct3` / `funct7` combination is not.
    UnsupportedFunct,
    /// A halfword or word access at this address is not aligned to its size.
    AddressMisaligned(u32),
    /// An access at this address reaches past the end of memory.
    AddressOutOfRange(u32),
}

/// `a` read as a two's-complement signed number.
pub open spec fn signed(a: u32) -> int {
    if a < 0x8000_0000 {
        a as int
    } else {
        a - 0x1_0000_0000
    }
}

/// `a` shifted right by `s`, filling with copies of its sign bit.
pub open spec fn ashr(a: u32, s: u32) -> u32 {
    if a < 0x8000_0000 {
        a >> s
    } else {
        !((!a) >> s)
    }
}

/// 1 if `c` holds, else 0.
pub open spec fn flag(c: bool) -> u32 {
    if c {
        1
    } else {
        0
    }
}

/// Whether a branch with this `funct3` is taken on `a` and `b`; `None` for a
/// `funct3` that names no branch.
pub open spec fn branch_taken(funct3: u32, a: u32, b: u32) -> Option<bool> {
    if funct3 == 0b000 {
        Some(a == b)
    } else if funct3 == 0b001 {
        Some(a != b)
    } else if funct3 == 0b100 {
        Some(signed(a) < signed(b))
    } else if funct3 == 0b101 {
        Some(signed(a) >= signed(b))
    } else if funct3 == 0b110 {
        Some(a < b)
    } else if funct3 == 0b111 {
        Some(a >= b)
    } else {
        None
    }
}

/// The result of an OP-IMM operation on `a`, with the sign-extended immediate
/// `imm` and the shift amount `shamt`; `None` for an unknown variant.
pub open spec fn op_imm_result(funct3: u32, funct7: u32, a: u32, imm: u32, shamt: u32) -> Option<u32> {
    if funct3 == 0b000 {
        Some(wrap_add(a, imm))
    } else if funct3 == 0b010 {
        Some(flag(signed(a) < signed(imm)))
    } else if funct3 == 0b011 {
        Some(flag(a < imm))
    } else if funct3 == 0b100 {
        Some(a ^ imm)
    } else if funct3 == 0b110 {
        Some(a | imm)
    } else if funct3 == 0b111 {
        Some(a & imm)
    } else if funct3 == 0b001 {
        Some(a << shamt)
    } else if funct3 == 0b101 && funct7 == 0b0000000 {
        Some(a >> shamt)
    } else if funct3 == 0b101 && funct7 == 0b0100000 {
        Some(ashr(a, shamt))
    } else {
        None
    }
}

/// The result of an OP operation on `a` and `b`; `None` for an unknown
/// `(funct7, funct3)` pair. Shifts use the low five bits of `b`.
pub open spec fn op_result(funct7: u32, funct3: u32, a: u32, b: u32) -> Option<u32> {
    if funct7 == 0b0000000 && funct3 == 0b000 {
        Some(wrap_add(a, b))
    } else if funct7 == 0b0100000 && funct3 == 0b000 {
        Some(wrap_sub(a, b))
    } else if funct7 == 0b0000000 && funct3 == 0b001 {
        Some(a << (b % 32))
    } else if funct7 == 0b0000000 && funct3 == 0b010 {
        Some(flag(signed(a) < signed(b)))
    } else if funct7 == 0b0000000 && funct3 == 0b011 {
        Some(flag(a < b))
    } else if funct7 == 0b0000000 && funct3 == 0b100 {
        Some(a ^ b)
    } else if funct7 == 0b0000000 && funct3 == 0b101 {
        Some(a >> (b % 32))
    } else if funct7 == 0b0100000 && funct3 == 0b101 {
        Some(ashr(a, b % 32))
    } else if funct7 == 0b0000000 && funct3 == 0b110 {
        Some(a | b)
    } else if funct7 == 0b0000000 && funct3 == 0b111 {
        Some(a & b)
    } else {
        None
    }
}

/// The address that a load or store reaches: `rs1` plus the sign-extended
/// 12-bit immediate.
pub open spec fn effective_addr(x: Seq<u32>, op: Operand) -> u32 {
    wrap_add(reg(x, op.rs1), sext(op.imm, 12))
}

/// Where JALR jumps: `rs1` plus the sign-extended immediate, low bit cleared.
pub open spec fn jalr_target(x: Seq<u32>, op: Operand) -> u32 {
    wrap_add(reg(x, op.rs1), sext(op.imm, 12)) & !1u32
}

/// The number of bytes a load with this `funct3` reads; 0 if none.
pub open spec fn load_width(funct3: u32) -> int {
    if funct3 == 0b000 || funct3 == 0b100 {
        1
    } else if funct3 == 0b001 || funct3 == 0b101 {
        2
    } else if funct3 == 0b010 {
        4
    } else {
        0
    }
}

/// The number of bytes a store with this `funct3` writes; 0 if none.
pub open spec fn store_width(funct3: u32) -> int {
    if funct3 == 0b000 {
        1
    } else if funct3 == 0b001 {
        2
    } else if funct3 == 0b010 {
        4
    } else {
        0
    }
}

/// The fault, if any, of an access of `width` bytes (0: unknown variant) at
/// `addr` in a memory of `len` bytes. Alignment is checked before range.
pub open spec fn access_fault(width: int, addr: u32, len: int) -> Option<ExecuteError> {
    if width == 0 {
        Some(ExecuteError::UnsupportedFunct)
    } else if addr % width as u32 != 0 {
        Some(ExecuteError::AddressMisaligned(addr))
    } else if addr + width > len {
        Some(ExecuteError::AddressOutOfRange(addr))
    } else {
        None
    }
}

/// The value a load with this `funct3` puts in `rd`, reading `m` at `a`.
pub open spec fn load_value(funct3: u32, m: Seq<u8>, a: int) -> u32 {
    if funct3 == 0b000 {
        sext(m[a] as u32, 8)
    } else if funct3 == 0b001 {
        sext(half_at(m, a), 16)
    } else if funct3 == 0b010 {
        word_at(m, a)
    } else if funct3 == 0b100 {
        m[a] as u32
    } else {
        half_at(m, a)
    }
}

/// What an operand of a kind other than LOAD and STORE does to the registers
/// `x` and to `pc`, and the signal it gives.
pub open spec fn reg_step(x: Seq<u32>, pc: u32, op: Operand) -> Result<
    (Seq<u32>, u32, Signal),
    ExecuteError,
>
    recommends
        !(op.kind is LOAD || op.kind is STORE),
{
    let next = wrap_add(pc, 4);
    match op.kind {
        InstrKind::LUI => Ok((set_reg(x, op.rd, op.imm), next, Signal::Continue)),
        InstrKind::AUIPC => Ok((set_reg(x, op.rd, wrap_add(pc, op.imm)), next, Signal::Continue)),
        InstrKind::JAL => Ok((set_reg(x, op.rd, next), wrap_add(pc, sext(op.imm, 20)), Signal::Continue)),
        InstrKind::JALR => Ok((set_reg(x, op.rd, next), jalr_target(x, op), Signal::Continue)),
        InstrKind::BRANCH => match branch_taken(op.funct3, reg(x, op.rs1), reg(x, op.rs2)) {
            Some(taken) => Ok(
                (x, if taken { wrap_add(pc, sext(op.imm, 12)) } else { next }, Signal::Continue),
            ),
            None => Err(ExecuteError::UnsupportedFunct),
        },
        InstrKind::OPIMM => match op_imm_result(
            op.funct3,
            op.funct7,
            reg(x, op.rs1),
            sext(op.imm, 12),
            op.rs2,
        ) {
            Some(v) => Ok((set_reg(x, op.rd, v), next, Signal::Continue)),
            None => Err(ExecuteError::UnsupportedFunct),
        },
        InstrKind::OP => match op_result(op.funct7, op.funct3, reg(x, op.rs1), reg(x, op.rs2)) {
            Some(v) => Ok((set_reg(x, op.rd, v), next, Signal::Continue)),
            None => Err(ExecuteError::UnsupportedFunct),
        },
        InstrKind::SYSTEM => Ok(
            (
                x,
                next,
                if op.funct7 == 0 && op.funct3 == 0 {
                    Signal::Halt(reg(x, 10))
                } else {
                    Signal::Continue
                },
            ),
        ),
        // MISC-MEM: a fence orders nothing in a sequential engine.
        _ => Ok((x, next, Signal::Continue)),
    }
}

/// What executing `op` does to the registers `x`, `pc` and memory `m`, and
/// the signal it gives; or the fault it raises.
pub open spec fn step(x: Seq<u32>, pc: u32, m: Seq<u8>, op: Operand) -> Result<
    (Seq<u32>, u32, Seq<u8>, Signal),
    ExecuteError,
> {
    let next = wrap_add(pc, 4);
    let addr = effective_addr(x, op);
    match op.kind {
        InstrKind::LOAD => match access_fault(load_width(op.funct3), addr, m.len() as int) {
            Some(e) => Err(e),
            None => Ok(
                (
                    set_reg(x, op.rd, load_value(op.funct3, m, addr as int)),
                    next,
                    m,
                    Signal::Continue,
                ),
            ),
        },
        InstrKind::STORE => match access_fault(store_width(op.funct3), addr, m.len() as int) {
            Some(e) => Err(e),
            None => Ok(
                (
                    x,
                    next,
                    store_le(m, addr as int, store_width(op.funct3), reg(x, op.rs2)),
                    Signal::Continue,
                ),
            ),
        },
        _ => match reg_step(x, pc, op) {
            Ok((x2, pc2, s)) => Ok((x2, pc2, m, s)),
            Err(e) => Err(e),
        },
    }
}

/// Registers `x1` and `pc1` after an operand that touches no memory, and
/// the result `r`, are those that `reg_step` gives from `x0` and `pc0`; a
/// fault changes nothing.
pub open spec fn reg_step_done(
    x0: Seq<u32>,
    pc0: u32,
    x1: Seq<u32>,
    pc1: u32,
    op: Operand,
    r: Result<Signal, ExecuteError>,
) -> bool {
    match r {
        Ok(s) => reg_step(x0, pc0, op) == Ok::<_, ExecuteError>((x1, pc1, s)),
        Err(e) => reg_step(x0, pc0, op) == Err::<(Seq<u32>, u32, Signal), _>(e) && x1 == x0 && pc1
            == pc0,
    }
}

/// Registers `x1`, `pc1` and memory `m1` after a step, and its result `r`, are
/// those that `step` gives from `x0`, `pc0` and `m0`; a fault changes nothing.
pub open spec fn step_done(
    x0: Seq<u32>,
    pc0: u32,
    m0: Seq<u8>,
    x1: Seq<u32>,
    pc1: u32,
    m1: Seq<u8>,
    op: Operand,
    r: Result<Signal, ExecuteError>,
) -> bool {
    match r {
        Ok(s) => step(x0, pc0, m0, op) == Ok::<_, ExecuteError>((x1, pc1, m1, s)),
        Err(e) => step(x0, pc0, m0, op) == Err::<(Seq<u32>, u32, Seq<u8>, Signal), _>(e) && x1
            == x0 && pc1 == pc0 && m1 == m0,
    }
}

/// Whether `a < b` as two's-complement signed numbers.
fn signed_lt(a: u32, b: u32) -> (r: bool)
    ensures
        r == (signed(a) < signed(b)),
{
    let neg_a = a >= 0x8000_0000;
    let neg_b = b >= 0x8000_0000;
    if neg_a != neg_b {
        neg_a
    } else {
        a < b
    }
}

/// Arithmetic right shift of `a` by `s`.
fn shift_right_arith(a: u32, s: u32) -> (r: u32)
    requires
        s < 32,
    ensures
        r == ashr(a, s),
{
    if a < 0x8000_0000 {
        a >> s
    } else {
        !((!a) >> s)
    }
}

/// The fault, if any, of an access of `width` bytes (0: unknown variant) at
/// `addr` in a memory of `len` bytes.
fn check_access(width: u32, addr: u32, len: usize) -> (r: Option<ExecuteError>)
    requires
        width == 0 || width == 1 || width == 2 || width == 4,
    ensures
        r == access_fault(width as int, addr, len as int),
{
    if width == 0 {
        Some(ExecuteError::UnsupportedFunct)
    } else if addr % width != 0 {
        Some(ExecuteError::AddressMisaligned(addr))
    } else if addr as usize >= len || len - (addr as usize) < width as usize {
        Some(ExecuteError::AddressOutOfRange(addr))
    } else {
        None
    }
}

fn execute_load(regfile: &mut Regfile, dmem: &Vec<u8>, operand: &Operand) -> (r: Result<
    Signal,
    ExecuteError,
>)
    requires
        operand.kind is LOAD,
        operand.wf(),
    ensures
        step_done(
            old(regfile).x@,
            old(regfile).pc,
            dmem@,
            final(regfile).x@,
            final(regfile).pc,
            dmem@,
            *operand,
            r,
        ),
{
    let (rd, rs1) = (operand.rd as usize, operand.rs1 as usize);
    let imm = sign_extend(operand.imm, 12);
    let addr = wadd(regfile.read(rs1), imm);
    let funct3 = operand.funct3;
    let width: u32 = if funct3 == 0b000 || funct3 == 0b100 {
        1
    } else if funct3 == 0b001 || funct3 == 0b101 {
        2
    } else if funct3 == 0b010 {
        4
    } else {
        0
    };
    if let Some(e) = check_access(width, addr, dmem.len()) {
        return Err(e);
    }
    let a = addr as usize;
    let val = if funct3 == 0b000 {
        sign_extend(load_byte(dmem, a), 8)  // LB
    } else if funct3 == 0b001 {
        sign_extend(load_half(dmem, a), 16)  // LH
    } else if funct3 == 0b010 {
        load_word(dmem, a)  // LW
    } else if funct3 == 0b100 {
        load_byte(dmem, a)  // LBU
    } else {
        load_half(dmem, a)  // LHU
    };
    regfile.write(rd, val);
    regfile.add_pc(4);
    Ok(Signal::Continue)
}

fn execute_store(regfile: &mut Regfile, dmem: &mut Vec<u8>, operand: &Operand) -> (r: Result<
    Signal,
    ExecuteError,
>)
    requires
        operand.kind is STORE,
        operand.wf(),
    ensures
        step_done(
            old(regfile).x@,
            old(regfile).pc,
            old(dmem)@,
            final(regfile).x@,
            final(regfile).pc,
            final(dmem)@,
            *operand,
            r,
        ),
{
    let (rs1, rs2) = (operand.rs1 as usize, operand.rs2 as usize);
    let imm = sign_extend(operand.imm, 12);
    let addr = wadd(regfile.read(rs1), imm);
    let funct3 = operand.funct3;
    let width: u32 = if funct3 == 0b000 {
        1  // SB
    } else if funct3 == 0b001 {
        2  // SH
    } else if funct3 == 0b010 {
        4  // SW
    } else {
        0
    };
    if let Some(e) = check_access(width, addr, dmem.len()) {
        return Err(e);
    }
    store(dmem, addr as usize, width as usize, regfile.read(rs2));
    regfile.add_pc(4);
    Ok(Signal::Continue)
}

proof fn lemma_low_five_bits(b: u32)
    by (bit_vector)
    ensures
        b & 0b11111 == b % 32,
{
}

fn execute_op_imm(regfile: &mut Regfile, operand: &Operand) -> (r: Result<Signal, ExecuteError>)
    requires
        operand.kind is OPIMM,
        operand.wf(),
    ensures
        reg_step_done(
            old(regfile).x@,
            old(regfile).pc,
            final(regfile).x@,
            final(regfile).pc,
            *operand,
            r,
        ),
{
    let (rd, rs1, shamt) = (operand.rd as usize, operand.rs1 as usize, operand.rs2);
    let imm = sign_extend(operand.imm, 12);
    let a = regfile.read(rs1);
    let funct3 = operand.funct3;
    let val = if funct3 == 0b000 {
        wadd(a, imm)  // ADDI
    } else if funct3 == 0b010 {
        if signed_lt(a, imm) { 1 } else { 0 }  // SLTI
    } else if funct3 == 0b011 {
        if a < imm { 1 } else { 0 }  // SLTIU
    } else if funct3 == 0b100 {
        a ^ imm  // XORI
    } else if funct3 == 0b110 {
        a | imm  // ORI
    } else if funct3 == 0b111 {
        a & imm  // ANDI
    } else if funct3 == 0b001 {
        a << shamt  // SLLI
    } else if funct3 == 0b101 && operand.funct7 == 0b0000000 {
        a >> shamt  // SRLI
    } else if funct3 == 0b101 && operand.funct7 == 0b0100000 {
        shift_right_arith(a, shamt)  // SRAI
    } else {
        return Err(ExecuteError::UnsupportedFunct);
    };
    regfile.write(rd, val);
    regfile.add_pc(4);
    Ok(Signal::Continue)
}

fn execute_op(regfile: &mut Regfile, operand: &Operand) -> (r: Result<Signal, ExecuteError>)
    requires
        operand.kind is OP,
        operand.wf(),
    ensures
        reg_step_done(
            old(regfile).x@,
            old(regfile).pc,
            final(regfile).x@,
            final(regfile).pc,
            *operand,
            r,
        ),
{
    let (rd, rs1, rs2) = (operand.rd as usize, operand.rs1 as usize, operand.rs2 as usize);
    let (a, b) = (regfile.read(rs1), regfile.read(rs2));
    let shamt = b & 0b11111;
    proof {
        lemma_low_five_bits(b);
    }
    let (funct7, funct3) = (operand.funct7, operand.funct3);
    let val = if funct7 == 0b0000000 && funct3 == 0b000 {
        wadd(a, b)  // ADD
    } else if funct7 == 0b0100000 && funct3 == 0b000 {
        wsub(a, b)  // SUB
    } else if funct7 == 0b0000000 && funct3 == 0b001 {
        a << shamt  // SLL
    } else if funct7 == 0b0000000 && funct3 == 0b010 {
        if signed_lt(a, b) { 1 } else { 0 }  // SLT
    } else if funct7 == 0b0000000 && funct3 == 0b011 {
        if a < b { 1 } else { 0 }  // SLTU
    } else if funct7 == 0b0000000 && funct3 == 0b100 {
        a ^ b  // XOR
    } else if funct7 == 0b0000000 && funct3 == 0b101 {
        a >> shamt  // SRL
    } else if funct7 == 0b0100000 && funct3 == 0b101 {
        shift_right_arith(a, shamt)  // SRA
    } else if funct7 == 0b0000000 && funct3 == 0b110 {
        a | b  // OR
    } else if funct7 == 0b0000000 && funct3 == 0b111 {
        a & b  // AND
    } else {
        return Err(ExecuteError::UnsupportedFunct);
    };
    regfile.write(rd, val);
    regfile.add_pc(4);
    Ok(Signal::Continue)
}

fn execute_branch(regfile: &mut Regfile, operand: &Operand) -> (r: Result<Signal, ExecuteError>)
    requires
        operand.kind is BRANCH,
        operand.wf(),
    ensures
        reg_step_done(
            old(regfile).x@,
            old(regfile).pc,
            final(regfile).x@,
            final(regfile).pc,
            *operand,
            r,
        ),
{
    let (rs1, rs2) = (operand.rs1 as usize, operand.rs2 as usize);
    let imm = sign_extend(operand.imm, 12);
    let (a, b) = (regfile.read(rs1), regfile.read(rs2));
    let funct3 = operand.funct3;
    let taken = if funct3 == 0b000 {
        a == b  // BEQ
    } else if funct3 == 0b001 {
        a != b  // BNE
    } else if funct3 == 0b100 {
        signed_lt(a, b)  // BLT
    } else if funct3 == 0b101 {
        !signed_lt(a, b)  // BGE
    } else if funct3 == 0b110 {
        a < b  // BLTU
    } else if funct3 == 0b111 {
        a >= b  // BGEU
    } else {
        return Err(ExecuteError::UnsupportedFunct);
    };
    if taken {
        regfile.add_pc(imm);
    } else {
        regfile.add_pc(4);
    }
    Ok(Signal::Continue)
}

fn execute_jalr(regfile: &mut Regfile, operand: &Operand) -> (r: Result<Signal, ExecuteError>)
    requires
        operand.kind is JALR,
        operand.wf(),
    ensures
        reg_step_done(
            old(regfile).x@,
            old(regfile).pc,
            final(regfile).x@,
            final(regfile).pc,
            *operand,
            r,
        ),
{
    let (rd, rs1) = (operand.rd as usize, operand.rs1 as usize);
    let imm = sign_extend(operand.imm, 12);
    let addr = wadd(regfile.read(rs1), imm) & !1u32;
    let link = wadd(regfile.pc, 4);
    regfile.write(rd, link);
    regfile.pc = addr;
    Ok(Signal::Continue)
}

fn execute_system(regfile: &mut Regfile, operand: &Operand) -> (r: Result<Signal, ExecuteError>)
    requires
        operand.kind is SYSTEM,
    ensures
        reg_step_done(
            old(regfile).x@,
            old(regfile).pc,
            final(regfile).x@,
            final(regfile).pc,
            *operand,
            r,
        ),
{
    regfile.add_pc(4);
    if operand.funct7 == 0b0000000 && operand.funct3 == 0b000 {
        Ok(Signal::Halt(regfile.read(10)))  // ECALL
    } else {
        Ok(Signal::Continue)
    }
}

fn execute_jal(regfile: &mut Regfile, operand: &Operand) -> (r: Result<Signal, ExecuteError>)
    requires
        operand.kind is JAL,
        operand.wf(),
    ensures
        reg_step_done(
            old(regfile).x@,
            old(regfile).pc,
            final(regfile).x@,
            final(regfile).pc,
            *operand,
            r,
        ),
{
    let rd = operand.rd as usize;
    let imm = sign_extend(operand.imm, 20);
    let link = wadd(regfile.pc, 4);
    regfile.write(rd, link);
    regfile.add_pc(imm);
    Ok(Signal::Continue)
}

fn execute_auipc(regfile: &mut Regfile, operand: &Operand) -> (r: Result<Signal, ExecuteError>)
    requires
        operand.kind is AUIPC,
        operand.wf(),
    ensures
        reg_step_done(
            old(regfile).x@,
            old(regfile).pc,
            final(regfile).x@,
            final(regfile).pc,
            *operand,
            r,
        ),
{
    let rd = operand.rd as usize;
    let val = wadd(regfile.pc, operand.imm);
    regfile.write(rd, val);
    regfile.add_pc(4);
    Ok(Signal::Continue)
}

fn execute_lui(regfile: &mut Regfile, operand: &Operand) -> (r: Result<Signal, ExecuteError>)
    requires
        operand.kind is LUI,
        operand.wf(),
    ensures
        reg_step_done(
            old(regfile).x@,
            old(regfile).pc,
            final(regfile).x@,
            final(regfile).pc,
            *operand,
            r,
        ),
{
    regfile.write(operand.rd as usize, operand.imm);
    regfile.add_pc(4);
    Ok(Signal::Continue)
}

/// Executes one operand against the register file and memory. Register 0 is
/// set to zero first; then the registers, `pc` and memory change as `step`
/// says, or, on a fault, stay as they were.
pub fn execute(regfile: &mut Regfile, dmem: &mut Vec<u8>, operand: &Operand) -> (r: Result<
    Signal,
    ExecuteError,
>)
    requires
        operand.wf(),
    ensures
        step_done(
            old(regfile).x@.update(0, 0),
            old(regfile).pc,
            old(dmem)@,
            final(regfile).x@,
            final(regfile).pc,
            final(dmem)@,
            *operand,
            r,
        ),
        final(regfile).wf(),
{
    regfile.x[0] = 0;
    assert(regfile.x@ == old(regfile).x@.update(0, 0));
    match operand.kind {
        InstrKind::LUI => execute_lui(regfile, operand),
        InstrKind::AUIPC => execute_auipc(regfile, operand),
        InstrKind::JAL => execute_jal(regfile, operand),
        InstrKind::JALR => execute_jalr(regfile, operand),
        InstrKind::BRANCH => execute_branch(regfile, operand),
        InstrKind::LOAD => execute_load(regfile, dmem, operand),
        InstrKind::STORE => execute_store(regfile, dmem, operand),
        InstrKind::OPIMM => execute_op_imm(regfile, operand),
        InstrKind::OP => execute_op(regfile, operand),
        InstrKind::MISCMEM => {
            regfile.add_pc(4);
            Ok(Signal::Continue)
        },
        InstrKind::SYSTEM => execute_system(regfile, operand),
    }
}

/// ADD never faults and wraps: executing it continues, writes
/// `(rs1 + rs2) mod 2^32` to `rd`, advances `pc` by 4 and leaves memory as it
/// was.
pub proof fn lemma_add_wraps(
    x0: Seq<u32>,
    pc0: u32,
    m0: Seq<u8>,
    x1: Seq<u32>,
    pc1: u32,
    m1: Seq<u8>,
    op: Operand,
    r: Result<Signal, ExecuteError>,
)
    requires
        op.kind is OP,
        op.funct7 == 0b0000000,
        op.funct3 == 0b000,
        op.wf(),
        x0.len() == 32,
        step_done(x0, pc0, m0, x1, pc1, m1, op, r),
    ensures
        r == Ok::<Signal, ExecuteError>(Signal::Continue),
        x1 == set_reg(x0, op.rd, ((reg(x0, op.rs1) + reg(x0, op.rs2)) % 0x1_0000_0000) as u32),
        op.rd != 0 ==> x1[op.rd as int] == ((reg(x0, op.rs1) + reg(x0, op.rs2)) % 0x1_0000_0000) as u32,
        pc1 == wrap_add(pc0, 4),
        m1 == m0,
{
}

proof fn lemma_sext_byte(b: u32)
    by (bit_vector)
    requires
        b < 0x100,
    ensures
        sext(b, 8) == if b < 0x80 {
            b
        } else {
            b | 0xFFFF_FF00
        },
{
}

/// LB sign-extends the byte it reads and LBU zero-extends it.
pub proof fn lemma_byte_loads_extend(m: Seq<u8>, a: int)
    requires
        0 <= a < m.len(),
    ensures
        load_value(0b000, m, a) == if m[a] < 0x80 {
            m[a] as u32
        } else {
            m[a] as u32 | 0xFFFF_FF00
        },
        load_value(0b100, m, a) == m[a] as u32,
{
    lemma_sext_byte(m[a] as u32);
}

/// A halfword or word load or store at an address that is not a multiple of
/// its size faults with `AddressMisaligned`, and neither registers, `pc` nor
/// memory change.
pub proof fn lemma_misaligned_access_faults(
    x0: Seq<u32>,
    pc0: u32,
    m0: Seq<u8>,
    x1: Seq<u32>,
    pc1: u32,
    m1: Seq<u8>,
    op: Operand,
    r: Result<Signal, ExecuteError>,
)
    requires
        op.kind is LOAD || op.kind is STORE,
        op.kind is LOAD ==> op.funct3 == 0b001 || op.funct3 == 0b101 || op.funct3 == 0b010,
        op.kind is STORE ==> op.funct3 == 0b001 || op.funct3 == 0b010,
        op.funct3 == 0b010 ==> effective_addr(x0, op) % 4 != 0,
        op.funct3 != 0b010 ==> effective_addr(x0, op) % 2 != 0,
        step_done(x0, pc0, m0, x1, pc1, m1, op, r),
    ensures
        r == Err::<Signal, _>(ExecuteError::AddressMisaligned(effective_addr(x0, op))),
        x1 == x0,
        pc1 == pc0,
        m1 == m0,
{
}

proof fn lemma_clear_low_bit(s: u32)
    by (bit_vector)
    ensures
        s & !1u32 == s - s % 2,
{
}

/// JALR continues at `rs1` (as it was before the step, even where `rd` is
/// `rs1`) plus the sign-extended immediate, with the low bit cleared: an odd
/// sum lands one byte lower, and the new `pc` is always even.
pub proof fn lemma_jalr_clears_low_bit(
    x0: Seq<u32>,
    pc0: u32,
    m0: Seq<u8>,
    x1: Seq<u32>,
    pc1: u32,
    m1: Seq<u8>,
    op: Operand,
    r: Result<Signal, ExecuteError>,
)
    requires
        op.kind is JALR,
        step_done(x0, pc0, m0, x1, pc1, m1, op, r),
    ensures
        r == Ok::<Signal, ExecuteError>(Signal::Continue),
        pc1 == wrap_add(reg(x0, op.rs1), sext(op.imm, 12)) - wrap_add(reg(x0, op.rs1), sext(op.imm, 12))
            % 2,
        pc1 % 2 == 0,
        x1 == set_reg(x0, op.rd, wrap_add(pc0, 4)),
        m1 == m0,
{
    lemma_clear_low_bit(wrap_add(reg(x0, op.rs1), sext(op.imm, 12)));
}

/// ECALL (SYSTEM with `funct7` and `funct3` zero) halts with register 10 as
/// its result, changing nothing but `pc`.
pub proof fn lemma_ecall_halts(
    x0: Seq<u32>,
    pc0: u32,
    m0: Seq<u8>,
    x1: Seq<u32>,
    pc1: u32,
    m1: Seq<u8>,
    op: Operand,
    r: Result<Signal, ExecuteError>,
)
    requires
        op.kind is SYSTEM,
        op.funct7 == 0,
        op.funct3 == 0,
        step_done(x0, pc0, m0, x1, pc1, m1, op, r),
    ensures
        r == Ok::<Signal, ExecuteError>(Signal::Halt(reg(x0, 10))),
        x1 == x0,
        pc1 == wrap_add(pc0, 4),
        m1 == m0,
{
}

} // verus!
