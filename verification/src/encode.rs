//! The inverse encoder: one function per RV32I mnemonic, each producing the
//! 32-bit word the decoder accepts and reproduces field-for-field.  The
//! round-trip lemmas at the end prove that property for every format.

use vstd::prelude::*;
use crate::bits::sxt;
use crate::constants::F3_ADDI;
use crate::constants::F3_ADD_SUB;
use crate::constants::F3_AND;
use crate::constants::F3_ANDI;
use crate::constants::F3_BEQ;
use crate::constants::F3_BGE;
use crate::constants::F3_BGEU;
use crate::constants::F3_BLT;
use crate::constants::F3_BLTU;
use crate::constants::F3_BNE;
use crate::constants::F3_LB;
use crate::constants::F3_LBU;
use crate::constants::F3_LH;
use crate::constants::F3_LHU;
use crate::constants::F3_LW;
use crate::constants::F3_OR;
use crate::constants::F3_ORI;
use crate::constants::F3_SB;
use crate::constants::F3_SH;
use crate::constants::F3_SLL;
use crate::constants::F3_SLLI;
use crate::constants::F3_SLT;
use crate::constants::F3_SLTI;
use crate::constants::F3_SLTIU;
use crate::constants::F3_SLTU;
use crate::constants::F3_SRX;
use crate::constants::F3_SRXI;
use crate::constants::F3_SW;
use crate::constants::F3_XOR;
use crate::constants::F3_XORI;
use crate::constants::OPC_AUIPC;
use crate::constants::OPC_BRANCH;
use crate::constants::OPC_JAL;
use crate::constants::OPC_JALR;
use crate::constants::OPC_LOAD;
use crate::constants::OPC_LUI;
use crate::constants::OPC_OP;
use crate::constants::OPC_OP_IMM;
use crate::constants::OPC_STORE;
use crate::decode::funct3_of;
use crate::decode::funct7_of;
use crate::decode::imm_b_of;
use crate::decode::imm_i_of;
use crate::decode::imm_j_of;
use crate::decode::imm_s_of;
use crate::decode::imm_u_of;
use crate::decode::opcode_of;
use crate::decode::rd_of;
use crate::decode::rs1_of;
use crate::decode::rs2_of;

verus! {

/// The word of a register-register instruction.
pub open spec fn r_type_bits(funct7: u32, rs2: u32, rs1: u32, funct3: u32, rd: u32) -> u32 {
    ((funct7 & 0x7f) << 25u32) | ((rs2 & 0x1f) << 20u32) | ((rs1 & 0x1f) << 15u32) | ((funct3
        & 0x7) << 12u32) | ((rd & 0x1f) << 7u32) | OPC_OP
}

/// The word of a register-immediate, load or jump-register instruction.
pub open spec fn i_type_bits(imm: u32, rs1: u32, funct3: u32, rd: u32, opcode: u32) -> u32 {
    ((imm & 0xfff) << 20u32) | ((rs1 & 0x1f) << 15u32) | ((funct3 & 0x7) << 12u32) | ((rd
        & 0x1f) << 7u32) | (opcode & 0x7f)
}

/// The word of an upper-immediate instruction.
pub open spec fn u_type_bits(imm: u32, rd: u32, opcode: u32) -> u32 {
    ((imm & 0xfffff) << 12u32) | ((rd & 0x1f) << 7u32) | (opcode & 0x7f)
}

/// The word of a jump instruction: the even 21-bit offset scattered over
/// bits 31 (bit 20), 30..21 (bits 10..1), 20 (bit 11) and 19..12
/// (bits 19..12).
pub open spec fn j_type_bits(imm: u32, rd: u32) -> u32 {
    let h = imm >> 1u32;
    (((h >> 19u32) & 0x1) << 31u32) | ((h & 0x3ff) << 21u32) | (((h >> 10u32) & 0x1) << 20u32) | ((
    (h >> 11u32) & 0xff) << 12u32) | ((rd & 0x1f) << 7u32) | OPC_JAL
}

/// The word of a branch instruction: the even 13-bit offset scattered over
/// bits 31 (bit 12), 30..25 (bits 10..5), 11..8 (bits 4..1) and 7 (bit 11).
pub open spec fn b_type_bits(imm: u32, rs2: u32, rs1: u32, funct3: u32) -> u32 {
    (((imm >> 12u32) & 0x1) << 31u32) | (((imm >> 5u32) & 0x3f) << 25u32) | ((rs2 & 0x1f)
        << 20u32) | ((rs1 & 0x1f) << 15u32) | ((funct3 & 0x7) << 12u32) | (((imm >> 1u32) & 0xf)
        << 8u32) | (((imm >> 11u32) & 0x1) << 7u32) | OPC_BRANCH
}

/// The word of a store instruction: the 12-bit offset split over bits
/// 31..25 (bits 11..5) and 11..7 (bits 4..0).
pub open spec fn s_type_bits(imm: u32, rs2: u32, rs1: u32, funct3: u32) -> u32 {
    (((imm >> 5u32) & 0x7f) << 25u32) | (rs2 << 20u32) | (rs1 << 15u32) | (funct3 << 12u32) | ((imm
        & 0x1f) << 7u32) | OPC_STORE
}

fn r_type(funct7: u32, rs2: u32, rs1: u32, funct3: u32, rd: u32) -> (r: u32)
    ensures
        r == r_type_bits(funct7, rs2, rs1, funct3, rd),
{
    ((funct7 & 0x7f) << 25u32) | ((rs2 & 0x1f) << 20u32) | ((rs1 & 0x1f) << 15u32) | ((funct3
        & 0x7) << 12u32) | ((rd & 0x1f) << 7u32) | OPC_OP
}

fn i_type(imm: u32, rs1: u32, funct3: u32, rd: u32, opcode: u32) -> (r: u32)
    ensures
        r == i_type_bits(imm, rs1, funct3, rd, opcode),
{
    ((imm & 0xfff) << 20u32) | ((rs1 & 0x1f) << 15u32) | ((funct3 & 0x7) << 12u32) | ((rd
        & 0x1f) << 7u32) | (opcode & 0x7f)
}

fn u_type(imm: u32, rd: u32, opcode: u32) -> (r: u32)
    ensures
        r == u_type_bits(imm, rd, opcode),
{
    ((imm & 0xfffff) << 12u32) | ((rd & 0x1f) << 7u32) | (opcode & 0x7f)
}

fn j_type(imm: u32, rd: u32) -> (r: u32)
    ensures
        r == j_type_bits(imm, rd),
{
    let h = imm >> 1u32;
    (((h >> 19u32) & 0x1) << 31u32) | ((h & 0x3ff) << 21u32) | (((h >> 10u32) & 0x1) << 20u32) | ((
    (h >> 11u32) & 0xff) << 12u32) | ((rd & 0x1f) << 7u32) | OPC_JAL
}

fn b_type(imm: u32, rs2: u32, rs1: u32, funct3: u32) -> (r: u32)
    ensures
        r == b_type_bits(imm, rs2, rs1, funct3),
{
    (((imm >> 12u32) & 0x1) << 31u32) | (((imm >> 5u32) & 0x3f) << 25u32) | ((rs2 & 0x1f)
        << 20u32) | ((rs1 & 0x1f) << 15u32) | ((funct3 & 0x7) << 12u32) | (((imm >> 1u32) & 0xf)
        << 8u32) | (((imm >> 11u32) & 0x1) << 7u32) | OPC_BRANCH
}

fn s_type(imm: u32, rs2: u32, rs1: u32, funct3: u32) -> (r: u32)
    ensures
        r == s_type_bits(imm, rs2, rs1, funct3),
{
    (((imm >> 5u32) & 0x7f) << 25u32) | (rs2 << 20u32) | (rs1 << 15u32) | (funct3 << 12u32) | ((imm
        & 0x1f) << 7u32) | OPC_STORE
}

fn as_u32(v: i32) -> (r: u32)
    ensures
        r == v as u32,
{
    #[verifier::truncate] (v as u32)
}

// Integer register-immediate instructions.

pub fn addi(rd: u32, rs1: u32, imm: i32) -> (r: u32)
    ensures
        r == i_type_bits(imm as u32, rs1, F3_ADDI, rd, OPC_OP_IMM),
{
    i_type(as_u32(imm), rs1, F3_ADDI, rd, OPC_OP_IMM)
}

pub fn slti(rd: u32, rs1: u32, imm: i32) -> (r: u32)
    ensures
        r == i_type_bits(imm as u32, rs1, F3_SLTI, rd, OPC_OP_IMM),
{
    i_type(as_u32(imm), rs1, F3_SLTI, rd, OPC_OP_IMM)
}

pub fn sltiu(rd: u32, rs1: u32, imm: i32) -> (r: u32)
    ensures
        r == i_type_bits(imm as u32, rs1, F3_SLTIU, rd, OPC_OP_IMM),
{
    i_type(as_u32(imm), rs1, F3_SLTIU, rd, OPC_OP_IMM)
}

pub fn andi(rd: u32, rs1: u32, imm: i32) -> (r: u32)
    ensures
        r == i_type_bits(imm as u32, rs1, F3_ANDI, rd, OPC_OP_IMM),
{
    i_type(as_u32(imm), rs1, F3_ANDI, rd, OPC_OP_IMM)
}

pub fn ori(rd: u32, rs1: u32, imm: i32) -> (r: u32)
    ensures
        r == i_type_bits(imm as u32, rs1, F3_ORI, rd, OPC_OP_IMM),
{
    i_type(as_u32(imm), rs1, F3_ORI, rd, OPC_OP_IMM)
}

pub fn xori(rd: u32, rs1: u32, imm: i32) -> (r: u32)
    ensures
        r == i_type_bits(imm as u32, rs1, F3_XORI, rd, OPC_OP_IMM),
{
    i_type(as_u32(imm), rs1, F3_XORI, rd, OPC_OP_IMM)
}

pub fn slli(rd: u32, rs1: u32, shamt: u32) -> (r: u32)
    ensures
        r == i_type_bits(shamt, rs1, F3_SLLI, rd, OPC_OP_IMM),
{
    i_type(shamt, rs1, F3_SLLI, rd, OPC_OP_IMM)
}

pub fn srli(rd: u32, rs1: u32, shamt: u32) -> (r: u32)
    ensures
        r == i_type_bits(shamt, rs1, F3_SRXI, rd, OPC_OP_IMM),
{
    i_type(shamt, rs1, F3_SRXI, rd, OPC_OP_IMM)
}

pub fn srai(rd: u32, rs1: u32, shamt: u32) -> (r: u32)
    ensures
        r == i_type_bits((1u32 << 10u32) | shamt, rs1, F3_SRXI, rd, OPC_OP_IMM),
{
    let imm = (1u32 << 10u32) | shamt;
    i_type(imm, rs1, F3_SRXI, rd, OPC_OP_IMM)
}

pub fn lui(rd: u32, imm: i32) -> (r: u32)
    ensures
        r == u_type_bits(imm as u32, rd, OPC_LUI),
{
    u_type(as_u32(imm), rd, OPC_LUI)
}

pub fn auipc(rd: u32, imm: i32) -> (r: u32)
    ensures
        r == u_type_bits(imm as u32, rd, OPC_AUIPC),
{
    u_type(as_u32(imm), rd, OPC_AUIPC)
}

// Integer register-register instructions.

pub fn add(rd: u32, rs1: u32, rs2: u32) -> (r: u32)
    ensures
        r == r_type_bits(0, rs2, rs1, F3_ADD_SUB, rd),
{
    r_type(0, rs2, rs1, F3_ADD_SUB, rd)
}

pub fn slt(rd: u32, rs1: u32, rs2: u32) -> (r: u32)
    ensures
        r == r_type_bits(0, rs2, rs1, F3_SLT, rd),
{
    r_type(0, rs2, rs1, F3_SLT, rd)
}

pub fn sltu(rd: u32, rs1: u32, rs2: u32) -> (r: u32)
    ensures
        r == r_type_bits(0, rs2, rs1, F3_SLTU, rd),
{
    r_type(0, rs2, rs1, F3_SLTU, rd)
}

pub fn and(rd: u32, rs1: u32, rs2: u32) -> (r: u32)
    ensures
        r == r_type_bits(0, rs2, rs1, F3_AND, rd),
{
    r_type(0, rs2, rs1, F3_AND, rd)
}

pub fn or(rd: u32, rs1: u32, rs2: u32) -> (r: u32)
    ensures
        r == r_type_bits(0, rs2, rs1, F3_OR, rd),
{
    r_type(0, rs2, rs1, F3_OR, rd)
}

pub fn xor(rd: u32, rs1: u32, rs2: u32) -> (r: u32)
    ensures
        r == r_type_bits(0, rs2, rs1, F3_XOR, rd),
{
    r_type(0, rs2, rs1, F3_XOR, rd)
}

pub fn sll(rd: u32, rs1: u32, rs2: u32) -> (r: u32)
    ensures
        r == r_type_bits(0, rs2, rs1, F3_SLL, rd),
{
    r_type(0, rs2, rs1, F3_SLL, rd)
}

pub fn srl(rd: u32, rs1: u32, rs2: u32) -> (r: u32)
    ensures
        r == r_type_bits(0, rs2, rs1, F3_SRX, rd),
{
    r_type(0, rs2, rs1, F3_SRX, rd)
}

pub fn sub(rd: u32, rs1: u32, rs2: u32) -> (r: u32)
    ensures
        r == r_type_bits(0x20, rs2, rs1, F3_ADD_SUB, rd),
{
    r_type(0x20, rs2, rs1, F3_ADD_SUB, rd)
}

pub fn sra(rd: u32, rs1: u32, rs2: u32) -> (r: u32)
    ensures
        r == r_type_bits(0x20, rs2, rs1, F3_SRX, rd),
{
    r_type(0x20, rs2, rs1, F3_SRX, rd)
}

/// The canonical no-operation: `ADDI x0, x0, 0`.
pub fn nop() -> (r: u32)
    ensures
        r == i_type_bits(0, 0, F3_ADDI, 0, OPC_OP_IMM),
{
    addi(0, 0, 0)
}

// Control-transfer instructions.

pub fn jal(rd: u32, imm: i32) -> (r: u32)
    ensures
        r == j_type_bits(imm as u32, rd),
{
    j_type(as_u32(imm), rd)
}

pub fn jalr(rd: u32, rs1: u32, imm: i32) -> (r: u32)
    ensures
        r == i_type_bits(imm as u32, rs1, 0, rd, OPC_JALR),
{
    i_type(as_u32(imm), rs1, 0, rd, OPC_JALR)
}

// Conditional branches.

pub fn beq(rs1: u32, rs2: u32, imm: i32) -> (r: u32)
    ensures
        r == b_type_bits(imm as u32, rs2, rs1, F3_BEQ),
{
    b_type(as_u32(imm), rs2, rs1, F3_BEQ)
}

pub fn bne(rs1: u32, rs2: u32, imm: i32) -> (r: u32)
    ensures
        r == b_type_bits(imm as u32, rs2, rs1, F3_BNE),
{
    b_type(as_u32(imm), rs2, rs1, F3_BNE)
}

pub fn blt(rs1: u32, rs2: u32, imm: i32) -> (r: u32)
    ensures
        r == b_type_bits(imm as u32, rs2, rs1, F3_BLT),
{
    b_type(as_u32(imm), rs2, rs1, F3_BLT)
}

pub fn bltu(rs1: u32, rs2: u32, imm: i32) -> (r: u32)
    ensures
        r == b_type_bits(imm as u32, rs2, rs1, F3_BLTU),
{
    b_type(as_u32(imm), rs2, rs1, F3_BLTU)
}

pub fn bge(rs1: u32, rs2: u32, imm: i32) -> (r: u32)
    ensures
        r == b_type_bits(imm as u32, rs2, rs1, F3_BGE),
{
    b_type(as_u32(imm), rs2, rs1, F3_BGE)
}

pub fn bgeu(rs1: u32, rs2: u32, imm: i32) -> (r: u32)
    ensures
        r == b_type_bits(imm as u32, rs2, rs1, F3_BGEU),
{
    b_type(as_u32(imm), rs2, rs1, F3_BGEU)
}

// Loads: `rd` receives memory at `rs1 + imm`.

pub fn lb(rd: u32, imm: i32, rs1: u32) -> (r: u32)
    ensures
        r == i_type_bits(imm as u32, rs1, F3_LB, rd, OPC_LOAD),
{
    i_type(as_u32(imm), rs1, F3_LB, rd, OPC_LOAD)
}

pub fn lbu(rd: u32, imm: i32, rs1: u32) -> (r: u32)
    ensures
        r == i_type_bits(imm as u32, rs1, F3_LBU, rd, OPC_LOAD),
{
    i_type(as_u32(imm), rs1, F3_LBU, rd, OPC_LOAD)
}

pub fn lh(rd: u32, imm: i32, rs1: u32) -> (r: u32)
    ensures
        r == i_type_bits(imm as u32, rs1, F3_LH, rd, OPC_LOAD),
{
    i_type(as_u32(imm), rs1, F3_LH, rd, OPC_LOAD)
}

pub fn lhu(rd: u32, imm: i32, rs1: u32) -> (r: u32)
    ensures
        r == i_type_bits(imm as u32, rs1, F3_LHU, rd, OPC_LOAD),
{
    i_type(as_u32(imm), rs1, F3_LHU, rd, OPC_LOAD)
}

pub fn lw(rd: u32, imm: i32, rs1: u32) -> (r: u32)
    ensures
        r == i_type_bits(imm as u32, rs1, F3_LW, rd, OPC_LOAD),
{
    i_type(as_u32(imm), rs1, F3_LW, rd, OPC_LOAD)
}

// Stores: memory at `rs1 + imm` receives `rs2`.

pub fn sb(rs2: u32, imm: i32, rs1: u32) -> (r: u32)
    ensures
        r == s_type_bits(imm as u32, rs2, rs1, F3_SB),
{
    s_type(as_u32(imm), rs2, rs1, F3_SB)
}

pub fn sh(rs2: u32, imm: i32, rs1: u32) -> (r: u32)
    ensures
        r == s_type_bits(imm as u32, rs2, rs1, F3_SH),
{
    s_type(as_u32(imm), rs2, rs1, F3_SH)
}

pub fn sw(rs2: u32, imm: i32, rs1: u32) -> (r: u32)
    ensures
        r == s_type_bits(imm as u32, rs2, rs1, F3_SW),
{
    s_type(as_u32(imm), rs2, rs1, F3_SW)
}

// Round-trip laws: decoding an encoded instruction recovers every field.
// Together with each encoder's own postcondition (its word is exactly the
// format function of its arguments), these cover every mnemonic above.

/// Decoding a register-register word recovers all five fields.
pub proof fn lemma_r_round_trip(funct7: u32, rs2: u32, rs1: u32, funct3: u32, rd: u32)
    by (bit_vector)
    requires
        funct7 < 128,
        rs2 < 32,
        rs1 < 32,
        funct3 < 8,
        rd < 32,
    ensures
        opcode_of(r_type_bits(funct7, rs2, rs1, funct3, rd)) == OPC_OP,
        funct7_of(r_type_bits(funct7, rs2, rs1, funct3, rd)) == funct7,
        rs2_of(r_type_bits(funct7, rs2, rs1, funct3, rd)) == rs2,
        rs1_of(r_type_bits(funct7, rs2, rs1, funct3, rd)) == rs1,
        funct3_of(r_type_bits(funct7, rs2, rs1, funct3, rd)) == funct3,
        rd_of(r_type_bits(funct7, rs2, rs1, funct3, rd)) == rd,
{
}

/// Decoding a register-immediate word recovers the registers, the selector,
/// and the low 12 bits of the immediate.
proof fn lemma_i_bits_fields(imm: u32, rs1: u32, funct3: u32, rd: u32, opcode: u32)
    by (bit_vector)
    requires
        rs1 < 32,
        funct3 < 8,
        rd < 32,
        opcode < 128,
    ensures
        opcode_of(i_type_bits(imm, rs1, funct3, rd, opcode)) == opcode,
        rs1_of(i_type_bits(imm, rs1, funct3, rd, opcode)) == rs1,
        funct3_of(i_type_bits(imm, rs1, funct3, rd, opcode)) == funct3,
        rd_of(i_type_bits(imm, rs1, funct3, rd, opcode)) == rd,
        imm_i_of(i_type_bits(imm, rs1, funct3, rd, opcode)) == imm & 0xfff,
        imm < 0x1000 ==> imm_i_of(i_type_bits(imm, rs1, funct3, rd, opcode)) == imm,
{
}

/// Decoding an encoded register-immediate word recovers every field; the
/// sign-extended immediate field is the signed immediate that was encoded.
pub proof fn lemma_i_round_trip(imm: i32, rs1: u32, funct3: u32, rd: u32, opcode: u32)
    requires
        -2048 <= imm < 2048,
        rs1 < 32,
        funct3 < 8,
        rd < 32,
        opcode < 128,
    ensures
        ({
            let w = i_type_bits(imm as u32, rs1, funct3, rd, opcode);
            opcode_of(w) == opcode && rs1_of(w) == rs1 && funct3_of(w) == funct3 && rd_of(w) == rd
                && sxt(imm_i_of(w), 12) == imm
        }),
{
    lemma_i_bits_fields(imm as u32, rs1, funct3, rd, opcode);
    crate::bits::lemma_sxt12_round_trip(imm);
}

/// Decoding an encoded shift word recovers the unsigned shift amount.
pub proof fn lemma_shift_round_trip(shamt: u32, rs1: u32, funct3: u32, rd: u32, opcode: u32)
    requires
        shamt < 0x1000,
        rs1 < 32,
        funct3 < 8,
        rd < 32,
        opcode < 128,
    ensures
        ({
            let w = i_type_bits(shamt, rs1, funct3, rd, opcode);
            opcode_of(w) == opcode && rs1_of(w) == rs1 && funct3_of(w) == funct3 && rd_of(w) == rd
                && imm_i_of(w) == shamt
        }),
{
    lemma_i_bits_fields(shamt, rs1, funct3, rd, opcode);
}

/// Decoding an upper-immediate word recovers the destination register and
/// the low 20 bits of the immediate.
pub proof fn lemma_u_round_trip(imm: u32, rd: u32, opcode: u32)
    by (bit_vector)
    requires
        rd < 32,
        opcode < 128,
    ensures
        opcode_of(u_type_bits(imm, rd, opcode)) == opcode,
        rd_of(u_type_bits(imm, rd, opcode)) == rd,
        imm_u_of(u_type_bits(imm, rd, opcode)) == imm & 0xfffff,
        imm < 0x100000 ==> imm_u_of(u_type_bits(imm, rd, opcode)) == imm,
{
}

/// Decoding a jump word recovers the destination register and the even
/// 21-bit immediate.
proof fn lemma_j_bits_fields(imm: u32, rd: u32)
    by (bit_vector)
    requires
        rd < 32,
    ensures
        opcode_of(j_type_bits(imm, rd)) == OPC_JAL,
        rd_of(j_type_bits(imm, rd)) == rd,
        imm_j_of(j_type_bits(imm, rd)) == imm & 0x1f_fffe,
{
}

/// Decoding an encoded jump recovers the destination register, and the
/// sign-extended immediate field is the even offset that was encoded.
pub proof fn lemma_j_round_trip(imm: i32, rd: u32)
    requires
        -0x10_0000 <= imm < 0x10_0000,
        imm % 2 == 0,
        rd < 32,
    ensures
        ({
            let w = j_type_bits(imm as u32, rd);
            opcode_of(w) == OPC_JAL && rd_of(w) == rd && sxt(imm_j_of(w), 21) == imm
        }),
{
    lemma_j_bits_fields(imm as u32, rd);
    crate::bits::lemma_sxt21_round_trip(imm);
}

/// Decoding a branch word recovers the registers, the selector, and the
/// even 13-bit immediate.
proof fn lemma_b_bits_fields(imm: u32, rs2: u32, rs1: u32, funct3: u32)
    by (bit_vector)
    requires
        rs2 < 32,
        rs1 < 32,
        funct3 < 8,
    ensures
        opcode_of(b_type_bits(imm, rs2, rs1, funct3)) == OPC_BRANCH,
        rs2_of(b_type_bits(imm, rs2, rs1, funct3)) == rs2,
        rs1_of(b_type_bits(imm, rs2, rs1, funct3)) == rs1,
        funct3_of(b_type_bits(imm, rs2, rs1, funct3)) == funct3,
        imm_b_of(b_type_bits(imm, rs2, rs1, funct3)) == imm & 0x1ffe,
{
}

/// Decoding an encoded branch recovers every field, and the sign-extended
/// immediate field is the even offset that was encoded.
pub proof fn lemma_b_round_trip(imm: i32, rs2: u32, rs1: u32, funct3: u32)
    requires
        -4096 <= imm < 4096,
        imm % 2 == 0,
        rs2 < 32,
        rs1 < 32,
        funct3 < 8,
    ensures
        ({
            let w = b_type_bits(imm as u32, rs2, rs1, funct3);
            opcode_of(w) == OPC_BRANCH && rs2_of(w) == rs2 && rs1_of(w) == rs1 && funct3_of(w)
                == funct3 && sxt(imm_b_of(w), 13) == imm
        }),
{
    lemma_b_bits_fields(imm as u32, rs2, rs1, funct3);
    crate::bits::lemma_sxt13_round_trip(imm);
}

/// Decoding a store word recovers the registers, the selector, and the low
/// 12 bits of the split immediate.
proof fn lemma_s_bits_fields(imm: u32, rs2: u32, rs1: u32, funct3: u32)
    by (bit_vector)
    requires
        rs2 < 32,
        rs1 < 32,
        funct3 < 8,
    ensures
        opcode_of(s_type_bits(imm, rs2, rs1, funct3)) == OPC_STORE,
        rs2_of(s_type_bits(imm, rs2, rs1, funct3)) == rs2,
        rs1_of(s_type_bits(imm, rs2, rs1, funct3)) == rs1,
        funct3_of(s_type_bits(imm, rs2, rs1, funct3)) == funct3,
        imm_s_of(s_type_bits(imm, rs2, rs1, funct3)) == imm & 0xfff,
{
}

/// Decoding an encoded store recovers every field, and the sign-extended
/// immediate field is the signed offset that was encoded.
pub proof fn lemma_s_round_trip(imm: i32, rs2: u32, rs1: u32, funct3: u32)
    requires
        -2048 <= imm < 2048,
        rs2 < 32,
        rs1 < 32,
        funct3 < 8,
    ensures
        ({
            let w = s_type_bits(imm as u32, rs2, rs1, funct3);
            opcode_of(w) == OPC_STORE && rs2_of(w) == rs2 && rs1_of(w) == rs1 && funct3_of(w)
                == funct3 && sxt(imm_s_of(w), 12) == imm
        }),
{
    lemma_s_bits_fields(imm as u32, rs2, rs1, funct3);
    crate::bits::lemma_sxt12_round_trip(imm);
}

} // verus!
