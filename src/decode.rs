//! The instruction decoder: a 32-bit instruction word to an [`Operand`].

use vstd::prelude::*;
use crate::bits::{field, retrieve};

verus! {

pub const OPCODE_LUI: u32 = 0b0110111;
pub const OPCODE_AUIPC: u32 = 0b0010111;
pub const OPCODE_JAL: u32 = 0b1101111;
pub const OPCODE_JALR: u32 = 0b1100111;
pub const OPCODE_BRANCH: u32 = 0b1100011;
pub const OPCODE_LOAD: u32 = 0b0000011;
pub const OPCODE_STORE: u32 = 0b0100011;
pub const OPCODE_OP_IMM: u32 = 0b0010011;
pub const OPCODE_OP: u32 = 0b0110011;
pub const OPCODE_MISC_MEM: u32 = 0b0001111;
pub const OPCODE_SYSTEM: u32 = 0b1110011;

/// The instruction family selected by the opcode.
#[derive(Debug, Clone, Copy, PartialEq, Eq, Structural)]
pub enum InstrKind {
    LUI,
    AUIPC,
    JAL,
    JALR,
    BRANCH,
    LOAD,
    STORE,
    OPIMM,
    OP,
    MISCMEM,
    SYSTEM,
}

/// One decoded instruction. Fields that mean nothing to `kind` are zero;
/// `imm` is reassembled from the word but not yet sign-extended.
#[derive(Debug, Clone, Copy, PartialEq, Eq, Structural)]
pub struct Operand {
    pub kind: InstrKind,
    pub opcode: u32,
    pub rd: u32,
    pub funct3: u32,
    pub rs1: u32,
    pub rs2: u32,
    pub funct7: u32,
    pub imm: u32,
}

/// Why a word could not be decoded.
#[derive(Debug, Clone, Copy, PartialEq, Eq, Structural)]
pub enum DecodeError {
    /// The low seven bits name no instruction family; the opcode is carried.
    UnsupportedOpcode(u32),
}

impl Operand {
    /// Register indices fit the 32-entry register file.
    pub open spec fn wf(&self) -> bool {
        &&& self.rd < 32
        &&& self.rs1 < 32
        &&& self.rs2 < 32
    }

    pub fn new(
        kind: InstrKind,
        opcode: u32,
        rd: u32,
        funct3: u32,
        rs1: u32,
        rs2: u32,
        funct7: u32,
        imm: u32,
    ) -> (r: Operand)
        ensures
            r == (Operand { kind, opcode, rd, funct3, rs1, rs2, funct7, imm }),
    {
        Operand { kind, opcode, rd, funct3, rs1, rs2, funct7, imm }
    }
}

/// The family that an opcode selects, if any.
pub open spec fn kind_of(opcode: u32) -> Option<InstrKind> {
    if opcode == OPCODE_LUI {
        Some(InstrKind::LUI)
    } else if opcode == OPCODE_AUIPC {
        Some(InstrKind::AUIPC)
    } else if opcode == OPCODE_JAL {
        Some(InstrKind::JAL)
    } else if opcode == OPCODE_JALR {
        Some(InstrKind::JALR)
    } else if opcode == OPCODE_BRANCH {
        Some(InstrKind::BRANCH)
    } else if opcode == OPCODE_LOAD {
        Some(InstrKind::LOAD)
    } else if opcode == OPCODE_STORE {
        Some(InstrKind::STORE)
    } else if opcode == OPCODE_OP_IMM {
        Some(InstrKind::OPIMM)
    } else if opcode == OPCODE_OP {
        Some(InstrKind::OP)
    } else if opcode == OPCODE_MISC_MEM {
        Some(InstrKind::MISCMEM)
    } else if opcode == OPCODE_SYSTEM {
        Some(InstrKind::SYSTEM)
    } else {
        None
    }
}

/// Whether the family writes a destination register `rd`.
pub open spec fn has_rd(k: InstrKind) -> bool {
    !(k is BRANCH || k is STORE)
}

/// Whether the family reads `funct3` and `rs1`.
pub open spec fn has_funct3_rs1(k: InstrKind) -> bool {
    !(k is LUI || k is AUIPC || k is JAL)
}

/// Whether the family reads `rs2` and `funct7` (for OP-IMM: the shift amount
/// and the shift variant; for SYSTEM: the function code).
pub open spec fn has_rs2_funct7(k: InstrKind) -> bool {
    k is OPIMM || k is OP || k is SYSTEM
}

/// Whether the family reads `rs2` alone, without `funct7`.
pub open spec fn has_rs2_only(k: InstrKind) -> bool {
    k is BRANCH || k is STORE
}

/// The immediate of a word of family `k`, reassembled from its bit fields.
pub open spec fn imm_of(k: InstrKind, w: u32) -> u32 {
    match k {
        InstrKind::LUI | InstrKind::AUIPC => field(w, 12, 20) << 12u32,
        InstrKind::JAL => (field(w, 31, 1) << 20u32) | (field(w, 12, 8) << 12u32) | (field(w, 20, 1)
            << 11u32) | (field(w, 21, 10) << 1u32),
        InstrKind::JALR | InstrKind::LOAD | InstrKind::OPIMM | InstrKind::OP => field(w, 20, 12),
        InstrKind::BRANCH => (field(w, 31, 1) << 12u32) | (field(w, 7, 1) << 11u32) | (field(w, 25, 6)
            << 5u32) | (field(w, 8, 4) << 1u32),
        InstrKind::STORE => (field(w, 25, 7) << 5u32) | field(w, 7, 5),
        InstrKind::MISCMEM => 0,
        InstrKind::SYSTEM => field(w, 15, 5),
    }
}

/// What decoding `w` gives.
pub open spec fn decode_spec(w: u32) -> Result<Operand, DecodeError> {
    let opcode = field(w, 0, 7);
    match kind_of(opcode) {
        Some(k) => Ok(
            Operand {
                kind: k,
                opcode,
                rd: if has_rd(k) { field(w, 7, 5) } else { 0 },
                funct3: if has_funct3_rs1(k) { field(w, 12, 3) } else { 0 },
                rs1: if has_funct3_rs1(k) { field(w, 15, 5) } else { 0 },
                rs2: if has_rs2_funct7(k) || has_rs2_only(k) { field(w, 20, 5) } else { 0 },
                funct7: if has_rs2_funct7(k) { field(w, 25, 7) } else { 0 },
                imm: imm_of(k, w),
            },
        ),
        None => Err(DecodeError::UnsupportedOpcode(opcode)),
    }
}

proof fn lemma_register_fields(w: u32)
    by (bit_vector)
    ensures
        field(w, 7, 5) < 32,
        field(w, 15, 5) < 32,
        field(w, 20, 5) < 32,
{
}

/// Decodes one instruction word.
pub fn decode(instr: u32) -> (r: Result<Operand, DecodeError>)
    ensures
        r == decode_spec(instr),
        r matches Ok(op) ==> op.wf(),
{
    proof {
        lemma_register_fields(instr);
    }
    let opcode = retrieve(instr, 0, 7);
    let rd = retrieve(instr, 7, 5);
    let funct3 = retrieve(instr, 12, 3);
    let rs1 = retrieve(instr, 15, 5);
    let rs2 = retrieve(instr, 20, 5);
    let funct7 = retrieve(instr, 25, 7);
    if opcode == OPCODE_LUI {
        Ok(Operand::new(InstrKind::LUI, opcode, rd, 0, 0, 0, 0, retrieve(instr, 12, 20) << 12))
    } else if opcode == OPCODE_AUIPC {
        Ok(Operand::new(InstrKind::AUIPC, opcode, rd, 0, 0, 0, 0, retrieve(instr, 12, 20) << 12))
    } else if opcode == OPCODE_JAL {
        let imm = (retrieve(instr, 31, 1) << 20) | (retrieve(instr, 12, 8) << 12) | (retrieve(
            instr,
            20,
            1,
        ) << 11) | (retrieve(instr, 21, 10) << 1);
        Ok(Operand::new(InstrKind::JAL, opcode, rd, 0, 0, 0, 0, imm))
    } else if opcode == OPCODE_JALR {
        Ok(Operand::new(InstrKind::JALR, opcode, rd, funct3, rs1, 0, 0, retrieve(instr, 20, 12)))
    } else if opcode == OPCODE_BRANCH {
        let imm = (retrieve(instr, 31, 1) << 12) | (retrieve(instr, 7, 1) << 11) | (retrieve(
            instr,
            25,
            6,
        ) << 5) | (retrieve(instr, 8, 4) << 1);
        Ok(Operand::new(InstrKind::BRANCH, opcode, 0, funct3, rs1, rs2, 0, imm))
    } else if opcode == OPCODE_LOAD {
        Ok(Operand::new(InstrKind::LOAD, opcode, rd, funct3, rs1, 0, 0, retrieve(instr, 20, 12)))
    } else if opcode == OPCODE_STORE {
        let imm = (retrieve(instr, 25, 7) << 5) | retrieve(instr, 7, 5);
        Ok(Operand::new(InstrKind::STORE, opcode, 0, funct3, rs1, rs2, 0, imm))
    } else if opcode == OPCODE_OP_IMM {
        let imm = retrieve(instr, 20, 12);
        Ok(Operand::new(InstrKind::OPIMM, opcode, rd, funct3, rs1, rs2, funct7, imm))
    } else if opcode == OPCODE_OP {
        let imm = retrieve(instr, 20, 12);
        Ok(Operand::new(InstrKind::OP, opcode, rd, funct3, rs1, rs2, funct7, imm))
    } else if opcode == OPCODE_MISC_MEM {
        Ok(Operand::new(InstrKind::MISCMEM, opcode, rd, funct3, rs1, 0, 0, 0))
    } else if opcode == OPCODE_SYSTEM {
        let imm = retrieve(instr, 15, 5);
        Ok(Operand::new(InstrKind::SYSTEM, opcode, rd, funct3, rs1, rs2, funct7, imm))
    } else {
        Err(DecodeError::UnsupportedOpcode(opcode))
    }
}

/// The R-format word with these fields.
pub open spec fn encode_r(opcode: u32, rd: u32, funct3: u32, rs1: u32, rs2: u32, funct7: u32) -> u32 {
    (funct7 << 25u32) | (rs2 << 20u32) | (rs1 << 15u32) | (funct3 << 12u32) | (rd << 7u32) | opcode
}

/// The I-format word with these fields and the 12-bit immediate `imm`.
pub open spec fn encode_i(opcode: u32, rd: u32, funct3: u32, rs1: u32, imm: u32) -> u32 {
    (imm << 20u32) | (rs1 << 15u32) | (funct3 << 12u32) | (rd << 7u32) | opcode
}

/// The S-format word with these fields and the 12-bit immediate `imm`.
pub open spec fn encode_s(opcode: u32, funct3: u32, rs1: u32, rs2: u32, imm: u32) -> u32 {
    ((imm >> 5u32) << 25u32) | (rs2 << 20u32) | (rs1 << 15u32) | (funct3 << 12u32) | ((imm & 0x1F)
        << 7u32) | opcode
}

/// The B-format word with these fields and the even 13-bit offset `imm`.
pub open spec fn encode_b(opcode: u32, funct3: u32, rs1: u32, rs2: u32, imm: u32) -> u32 {
    (((imm >> 12u32) & 1) << 31u32) | (((imm >> 5u32) & 0x3F) << 25u32) | (rs2 << 20u32) | (rs1
        << 15u32) | (funct3 << 12u32) | (((imm >> 1u32) & 0xF) << 8u32) | (((imm >> 11u32) & 1)
        << 7u32) | opcode
}

/// The U-format word with these fields; `imm` has its low 12 bits clear.
pub open spec fn encode_u(opcode: u32, rd: u32, imm: u32) -> u32 {
    imm | (rd << 7u32) | opcode
}

/// The J-format word with these fields and the even 21-bit offset `imm`.
pub open spec fn encode_j(opcode: u32, rd: u32, imm: u32) -> u32 {
    (((imm >> 20u32) & 1) << 31u32) | (((imm >> 1u32) & 0x3FF) << 21u32) | (((imm >> 11u32) & 1)
        << 20u32) | (((imm >> 12u32) & 0xFF) << 12u32) | (rd << 7u32) | opcode
}

/// Decoding an R-format word gives back the fields it was built from.
pub proof fn lemma_round_trip_r(rd: u32, funct3: u32, rs1: u32, rs2: u32, funct7: u32)
    requires
        rd < 32,
        funct3 < 8,
        rs1 < 32,
        rs2 < 32,
        funct7 < 128,
    ensures
        decode_spec(encode_r(OPCODE_OP, rd, funct3, rs1, rs2, funct7)) matches Ok(op) && op.kind
            == InstrKind::OP && op.opcode == OPCODE_OP && op.rd == rd && op.funct3 == funct3
            && op.rs1 == rs1 && op.rs2 == rs2 && op.funct7 == funct7,
{
    let w = encode_r(OPCODE_OP, rd, funct3, rs1, rs2, funct7);
    assert(field(w, 0, 7) == OPCODE_OP && field(w, 7, 5) == rd && field(w, 12, 3) == funct3
        && field(w, 15, 5) == rs1 && field(w, 20, 5) == rs2 && field(w, 25, 7) == funct7)
        by (bit_vector)
        requires
            w == encode_r(0b0110011, rd, funct3, rs1, rs2, funct7),
            rd < 32,
            funct3 < 8,
            rs1 < 32,
            rs2 < 32,
            funct7 < 128,
    ;
}

/// Decoding an I-format word (JALR, LOAD, OP-IMM) gives back the fields it
/// was built from.
pub proof fn lemma_round_trip_i(opcode: u32, rd: u32, funct3: u32, rs1: u32, imm: u32)
    requires
        opcode == OPCODE_JALR || opcode == OPCODE_LOAD || opcode == OPCODE_OP_IMM,
        rd < 32,
        funct3 < 8,
        rs1 < 32,
        imm < 0x1000,
    ensures
        decode_spec(encode_i(opcode, rd, funct3, rs1, imm)) matches Ok(op) && op.kind == kind_of(
            opcode,
        )->Some_0 && op.opcode == opcode && op.rd == rd && op.funct3 == funct3 && op.rs1 == rs1
            && op.imm == imm,
{
    let w = encode_i(opcode, rd, funct3, rs1, imm);
    assert(field(w, 0, 7) == opcode && field(w, 7, 5) == rd && field(w, 12, 3) == funct3 && field(
        w,
        15,
        5,
    ) == rs1 && field(w, 20, 12) == imm) by (bit_vector)
        requires
            w == encode_i(opcode, rd, funct3, rs1, imm),
            opcode < 128,
            rd < 32,
            funct3 < 8,
            rs1 < 32,
            imm < 0x1000,
    ;
}

/// Decoding an S-format word gives back the fields it was built from.
pub proof fn lemma_round_trip_s(funct3: u32, rs1: u32, rs2: u32, imm: u32)
    requires
        funct3 < 8,
        rs1 < 32,
        rs2 < 32,
        imm < 0x1000,
    ensures
        decode_spec(encode_s(OPCODE_STORE, funct3, rs1, rs2, imm)) matches Ok(op) && op.kind
            == InstrKind::STORE && op.opcode == OPCODE_STORE && op.funct3 == funct3 && op.rs1
            == rs1 && op.rs2 == rs2 && op.imm == imm,
{
    let w = encode_s(OPCODE_STORE, funct3, rs1, rs2, imm);
    assert(field(w, 0, 7) == OPCODE_STORE && field(w, 12, 3) == funct3 && field(w, 15, 5) == rs1
        && field(w, 20, 5) == rs2 && (field(w, 25, 7) << 5u32) | field(w, 7, 5) == imm)
        by (bit_vector)
        requires
            w == encode_s(0b0100011, funct3, rs1, rs2, imm),
            funct3 < 8,
            rs1 < 32,
            rs2 < 32,
            imm < 0x1000,
    ;
}

/// Decoding a B-format word gives back the fields it was built from.
pub proof fn lemma_round_trip_b(funct3: u32, rs1: u32, rs2: u32, imm: u32)
    requires
        funct3 < 8,
        rs1 < 32,
        rs2 < 32,
        imm < 0x2000,
        imm % 2 == 0,
    ensures
        decode_spec(encode_b(OPCODE_BRANCH, funct3, rs1, rs2, imm)) matches Ok(op) && op.kind
            == InstrKind::BRANCH && op.opcode == OPCODE_BRANCH && op.funct3 == funct3 && op.rs1
            == rs1 && op.rs2 == rs2 && op.imm == imm,
{
    let w = encode_b(OPCODE_BRANCH, funct3, rs1, rs2, imm);
    assert(field(w, 0, 7) == OPCODE_BRANCH && field(w, 12, 3) == funct3 && field(w, 15, 5) == rs1
        && field(w, 20, 5) == rs2 && (field(w, 31, 1) << 12u32) | (field(w, 7, 1) << 11u32) | (
    field(w, 25, 6) << 5u32) | (field(w, 8, 4) << 1u32) == imm) by (bit_vector)
        requires
            w == encode_b(0b1100011, funct3, rs1, rs2, imm),
            funct3 < 8,
            rs1 < 32,
            rs2 < 32,
            imm < 0x2000,
            imm % 2 == 0,
    ;
}

/// Decoding a U-format word (LUI, AUIPC) gives back the fields it was built
/// from.
pub proof fn lemma_round_trip_u(opcode: u32, rd: u32, imm: u32)
    requires
        opcode == OPCODE_LUI || opcode == OPCODE_AUIPC,
        rd < 32,
        imm % 0x1000 == 0,
    ensures
        decode_spec(encode_u(opcode, rd, imm)) matches Ok(op) && op.kind == kind_of(opcode)->Some_0
            && op.opcode == opcode && op.rd == rd && op.imm == imm,
{
    let w = encode_u(opcode, rd, imm);
    assert(field(w, 0, 7) == opcode && field(w, 7, 5) == rd && field(w, 12, 20) << 12u32 == imm)
        by (bit_vector)
        requires
            w == encode_u(opcode, rd, imm),
            opcode < 128,
            rd < 32,
            imm % 0x1000 == 0,
    ;
}

/// Decoding a J-format word gives back the fields it was built from.
pub proof fn lemma_round_trip_j(rd: u32, imm: u32)
    requires
        rd < 32,
        imm < 0x20_0000,
        imm % 2 == 0,
    ensures
        decode_spec(encode_j(OPCODE_JAL, rd, imm)) matches Ok(op) && op.kind == InstrKind::JAL
            && op.opcode == OPCODE_JAL && op.rd == rd && op.imm == imm,
{
    let w = encode_j(OPCODE_JAL, rd, imm);
    assert(field(w, 0, 7) == OPCODE_JAL && field(w, 7, 5) == rd && (field(w, 31, 1) << 20u32) | (
    field(w, 12, 8) << 12u32) | (field(w, 20, 1) << 11u32) | (field(w, 21, 10) << 1u32) == imm)
        by (bit_vector)
        requires
            w == encode_j(0b1101111, rd, imm),
            rd < 32,
            imm < 0x20_0000,
            imm % 2 == 0,
    ;
}

} // verus!
