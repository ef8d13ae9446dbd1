use riscv_simulator::bits::{retrieve, sign_extend, wadd, wsub};
use riscv_simulator::{decode, DecodeError, InstrKind, Operand};

fn r_type(rd: u32, funct3: u32, rs1: u32, rs2: u32, funct7: u32) -> u32 {
    (funct7 << 25) | (rs2 << 20) | (rs1 << 15) | (funct3 << 12) | (rd << 7) | 0b0110011
}

fn i_type(opcode: u32, rd: u32, funct3: u32, rs1: u32, imm: u32) -> u32 {
    ((imm & 0xFFF) << 20) | (rs1 << 15) | (funct3 << 12) | (rd << 7) | opcode
}

fn s_type(funct3: u32, rs1: u32, rs2: u32, imm: u32) -> u32 {
    ((imm >> 5) << 25) | (rs2 << 20) | (rs1 << 15) | (funct3 << 12) | ((imm & 0x1F) << 7) | 0b0100011
}

fn b_type(funct3: u32, rs1: u32, rs2: u32, imm: u32) -> u32 {
    (((imm >> 12) & 1) << 31)
        | (((imm >> 5) & 0x3F) << 25)
        | (rs2 << 20)
        | (rs1 << 15)
        | (funct3 << 12)
        | (((imm >> 1) & 0xF) << 8)
        | (((imm >> 11) & 1) << 7)
        | 0b1100011
}

fn u_type(opcode: u32, rd: u32, imm: u32) -> u32 {
    imm | (rd << 7) | opcode
}

fn j_type(rd: u32, imm: u32) -> u32 {
    (((imm >> 20) & 1) << 31)
        | (((imm >> 1) & 0x3FF) << 21)
        | (((imm >> 11) & 1) << 20)
        | (((imm >> 12) & 0xFF) << 12)
        | (rd << 7)
        | 0b1101111
}

#[test]
fn decode_addi_example() {
    let op = decode(0x00500093).unwrap();
    assert_eq!(op.kind, InstrKind::OPIMM);
    assert_eq!(op.opcode, 0b0010011);
    assert_eq!(op.funct3, 0);
    assert_eq!(op.rd, 1);
    assert_eq!(op.rs1, 0);
    assert_eq!(op.imm, 5);
}

#[test]
fn decode_unknown_opcode_fails() {
    assert_eq!(decode(0x0000007F), Err(DecodeError::UnsupportedOpcode(0x7F)));
    assert_eq!(decode(0), Err(DecodeError::UnsupportedOpcode(0)));
}

#[test]
fn round_trip_r_format() {
    let op = decode(r_type(31, 0b101, 7, 19, 0b0100000)).unwrap();
    assert_eq!(
        op,
        Operand::new(InstrKind::OP, 0b0110011, 31, 0b101, 7, 19, 0b0100000, (0b0100000 << 5) | 19)
    );
}

#[test]
fn round_trip_i_format() {
    let op = decode(i_type(0b0000011, 5, 0b010, 9, 0xABC)).unwrap();
    assert_eq!(op, Operand::new(InstrKind::LOAD, 0b0000011, 5, 0b010, 9, 0, 0, 0xABC));
    let op = decode(i_type(0b1100111, 1, 0, 2, 0x800)).unwrap();
    assert_eq!(op, Operand::new(InstrKind::JALR, 0b1100111, 1, 0, 2, 0, 0, 0x800));
}

#[test]
fn round_trip_s_format() {
    let op = decode(s_type(0b001, 3, 4, 0xFE5)).unwrap();
    assert_eq!(op, Operand::new(InstrKind::STORE, 0b0100011, 0, 0b001, 3, 4, 0, 0xFE5));
}

#[test]
fn round_trip_b_format() {
    for imm in [0x2u32, 0x800, 0x1000, 0x1FFE, 0x0AAA] {
        let op = decode(b_type(0b110, 10, 11, imm)).unwrap();
        assert_eq!(op, Operand::new(InstrKind::BRANCH, 0b1100011, 0, 0b110, 10, 11, 0, imm));
    }
}

#[test]
fn round_trip_u_format() {
    let op = decode(u_type(0b0110111, 12, 0xDEAD_B000)).unwrap();
    assert_eq!(op, Operand::new(InstrKind::LUI, 0b0110111, 12, 0, 0, 0, 0, 0xDEAD_B000));
    let op = decode(u_type(0b0010111, 3, 0x0000_1000)).unwrap();
    assert_eq!(op, Operand::new(InstrKind::AUIPC, 0b0010111, 3, 0, 0, 0, 0, 0x1000));
}

#[test]
fn round_trip_j_format() {
    for imm in [0x2u32, 0x800, 0x1000, 0x10_0000, 0x1F_FFFE, 0x0A_5556] {
        let op = decode(j_type(1, imm)).unwrap();
        assert_eq!(op, Operand::new(InstrKind::JAL, 0b1101111, 1, 0, 0, 0, 0, imm));
    }
}

#[test]
fn decode_leaves_unused_fields_zero() {
    // sw x2, 8(x1): no rd, no funct7
    let op = decode(s_type(0b010, 1, 2, 8)).unwrap();
    assert_eq!(op.rd, 0);
    assert_eq!(op.funct7, 0);
    // lui x5, 0x12345: only rd and imm
    let op = decode(u_type(0b0110111, 5, 0x1234_5000)).unwrap();
    assert_eq!((op.funct3, op.rs1, op.rs2, op.funct7), (0, 0, 0, 0));
}

#[test]
fn decode_misc_mem_and_system() {
    let op = decode(0x0FF0000F).unwrap();
    assert_eq!(op.kind, InstrKind::MISCMEM);
    assert_eq!(op.imm, 0);
    let op = decode(0x00000073).unwrap();
    assert_eq!(op.kind, InstrKind::SYSTEM);
    assert_eq!((op.funct3, op.funct7, op.imm), (0, 0, 0));
    // csrrwi-shaped word: imm is the zimm field, bits 19..15
    let op = decode(0x3401D073).unwrap();
    assert_eq!(op.imm, 3);
    assert_eq!(op.funct3, 0b101);
}

#[test]
fn retrieve_extracts_fields() {
    assert_eq!(retrieve(0xDEADBEEF, 0, 8), 0xEF);
    assert_eq!(retrieve(0xDEADBEEF, 28, 4), 0xD);
    assert_eq!(retrieve(0x00500093, 20, 12), 5);
}

#[test]
fn sign_extend_cases() {
    assert_eq!(sign_extend(0xFFF, 12), 0xFFFF_FFFF);
    assert_eq!(sign_extend(0x800, 12), 0xFFFF_F800);
    assert_eq!(sign_extend(0x7FF, 12), 0x7FF);
    assert_eq!(sign_extend(0x80, 8), 0xFFFF_FF80);
    assert_eq!(sign_extend(0x7F, 8), 0x7F);
    assert_eq!(sign_extend(0x8_0000, 20), 0xFFF8_0000);
}

#[test]
fn wrapping_arithmetic() {
    assert_eq!(wadd(0xFFFF_FFFF, 1), 0);
    assert_eq!(wadd(0x8000_0000, 0x8000_0001), 1);
    assert_eq!(wsub(0, 1), 0xFFFF_FFFF);
    assert_eq!(wsub(10, 3), 7);
}
