//! Instruction decoding: bit-field projections of a raw 32-bit instruction
//! word, and the six format variants that group them.
//!
//! Immediate bits are reassembled from non-contiguous ranges exactly as the
//! RV32I encoding tables place them; branch and jump immediates always have a
//! zero low bit, since that bit is never encoded.  Decoding is pure and
//! total: every word decodes to some value for every format.

use vstd::prelude::*;
use crate::bits::field;
use crate::bits::take_range;

verus! {

/// Primary opcode: bits 6..0.
pub open spec fn opcode_of(x: u32) -> u32 {
    field(6, 0, x)
}

/// Destination register index: bits 11..7.
pub open spec fn rd_of(x: u32) -> u32 {
    field(11, 7, x)
}

/// Sub-opcode selector: bits 14..12.
pub open spec fn funct3_of(x: u32) -> u32 {
    field(14, 12, x)
}

/// First source register index: bits 19..15.
pub open spec fn rs1_of(x: u32) -> u32 {
    field(19, 15, x)
}

/// Second source register index: bits 24..20.
pub open spec fn rs2_of(x: u32) -> u32 {
    field(24, 20, x)
}

/// Second sub-opcode selector: bits 31..25.
pub open spec fn funct7_of(x: u32) -> u32 {
    field(31, 25, x)
}

/// 12-bit immediate of the register-immediate formats: bits 31..20.
pub open spec fn imm_i_of(x: u32) -> u32 {
    field(31, 20, x)
}

/// 20-bit upper immediate: bits 31..12.
pub open spec fn imm_u_of(x: u32) -> u32 {
    field(31, 12, x)
}

/// 12-bit store immediate, split across bits 31..25 and 11..7.
pub open spec fn imm_s_of(x: u32) -> u32 {
    (field(31, 25, x) << 5) | field(11, 7, x)
}

/// 13-bit branch immediate, reassembled from bit 31 (bit 12), bit 7
/// (bit 11), bits 30..25 (bits 10..5) and bits 11..8 (bits 4..1).
pub open spec fn imm_b_of(x: u32) -> u32 {
    (field(31, 31, x) << 12) | (field(7, 7, x) << 11) | (field(30, 25, x) << 5) | (field(
        11,
        8,
        x,
    ) << 1)
}

/// 21-bit jump immediate, reassembled from bit 31 (bit 20), bits 19..12
/// (bits 19..12), bit 20 (bit 11) and bits 30..21 (bits 10..1).
pub open spec fn imm_j_of(x: u32) -> u32 {
    (field(31, 31, x) << 20) | (field(19, 12, x) << 12) | (field(20, 20, x) << 11) | (field(
        30,
        21,
        x,
    ) << 1)
}

/// Every projection stays within the width of its bit range, and the branch
/// and jump immediates are always even.
pub proof fn lemma_field_bounds(x: u32)
    by (bit_vector)
    ensures
        opcode_of(x) < 128,
        rd_of(x) < 32,
        funct3_of(x) < 8,
        rs1_of(x) < 32,
        rs2_of(x) < 32,
        funct7_of(x) < 128,
        imm_i_of(x) < 0x1000,
        imm_u_of(x) < 0x100000,
        imm_s_of(x) < 0x1000,
        imm_b_of(x) < 0x2000,
        imm_b_of(x) % 2 == 0,
        imm_j_of(x) < 0x200000,
        imm_j_of(x) % 2 == 0,
{
}

/// Register-immediate, load and jump-register format: a 12-bit immediate,
/// one source register, a destination register and a funct3 selector.
pub struct IType {
    pub imm: u32,
    pub rs1: usize,
    pub rd: usize,
    pub funct3: u32,
}

/// Upper-immediate format: a 20-bit immediate and a destination register.
pub struct UType {
    pub rd: usize,
    pub imm: u32,
}

/// Register-register format: two source registers, a destination register
/// and both sub-opcode selectors.
pub struct RType {
    pub funct7: u32,
    pub rs2: usize,
    pub rs1: usize,
    pub funct3: u32,
    pub rd: usize,
}

/// Jump format: a 21-bit immediate (always even) and a destination register.
pub struct JType {
    pub imm: u32,
    pub rd: usize,
}

/// Branch format: a 13-bit immediate (always even), two source registers and
/// a funct3 selector.
pub struct BType {
    pub imm: u32,
    pub rs2: usize,
    pub rs1: usize,
    pub funct3: u32,
}

/// Store format: a 12-bit immediate split across two ranges, two source
/// registers and a funct3 selector.
pub struct SType {
    pub imm: u32,
    pub rs2: usize,
    pub rs1: usize,
    pub funct3: u32,
}

pub fn get_i_type(ins: u32) -> (r: IType)
    ensures
        r.imm == imm_i_of(ins),
        r.rs1 == rs1_of(ins),
        r.rd == rd_of(ins),
        r.funct3 == funct3_of(ins),
        r.imm < 0x1000,
        r.rs1 < 32,
        r.rd < 32,
        r.funct3 < 8,
{
    proof {
        lemma_field_bounds(ins);
    }
    let imm = take_range(31, 20, ins);
    let rs1 = take_range(19, 15, ins) as usize;
    let rd = take_range(11, 7, ins) as usize;
    let funct3 = take_range(14, 12, ins);
    IType { imm, rs1, rd, funct3 }
}

pub fn get_u_type(ins: u32) -> (r: UType)
    ensures
        r.rd == rd_of(ins),
        r.imm == imm_u_of(ins),
        r.rd < 32,
        r.imm < 0x100000,
{
    proof {
        lemma_field_bounds(ins);
    }
    let rd = take_range(11, 7, ins) as usize;
    let imm = take_range(31, 12, ins);
    UType { rd, imm }
}

pub fn get_r_type(ins: u32) -> (r: RType)
    ensures
        r.funct7 == funct7_of(ins),
        r.rs2 == rs2_of(ins),
        r.rs1 == rs1_of(ins),
        r.funct3 == funct3_of(ins),
        r.rd == rd_of(ins),
        r.funct7 < 128,
        r.rs2 < 32,
        r.rs1 < 32,
        r.funct3 < 8,
        r.rd < 32,
{
    proof {
        lemma_field_bounds(ins);
    }
    let funct7 = take_range(31, 25, ins);
    let rs2 = take_range(24, 20, ins) as usize;
    let rs1 = take_range(19, 15, ins) as usize;
    let funct3 = take_range(14, 12, ins);
    let rd = take_range(11, 7, ins) as usize;
    RType { funct7, rs2, rs1, funct3, rd }
}

pub fn get_j_type(ins: u32) -> (r: JType)
    ensures
        r.imm == imm_j_of(ins),
        r.rd == rd_of(ins),
        r.imm < 0x200000,
        r.imm % 2 == 0,
        r.rd < 32,
{
    proof {
        lemma_field_bounds(ins);
    }
    let imm20 = take_range(31, 31, ins);
    let imm10_1 = take_range(30, 21, ins);
    let imm11 = take_range(20, 20, ins);
    let imm19_12 = take_range(19, 12, ins);
    let imm = (imm20 << 20) | (imm19_12 << 12) | (imm11 << 11) | (imm10_1 << 1);
    let rd = take_range(11, 7, ins) as usize;
    JType { imm, rd }
}

pub fn get_b_type(ins: u32) -> (r: BType)
    ensures
        r.imm == imm_b_of(ins),
        r.rs2 == rs2_of(ins),
        r.rs1 == rs1_of(ins),
        r.funct3 == funct3_of(ins),
        r.imm < 0x2000,
        r.imm % 2 == 0,
        r.rs2 < 32,
        r.rs1 < 32,
        r.funct3 < 8,
{
    proof {
        lemma_field_bounds(ins);
    }
    let imm12 = take_range(31, 31, ins);
    let imm10_5 = take_range(30, 25, ins);
    let rs2 = take_range(24, 20, ins) as usize;
    let rs1 = take_range(19, 15, ins) as usize;
    let funct3 = take_range(14, 12, ins);
    let imm4_1 = take_range(11, 8, ins);
    let imm11 = take_range(7, 7, ins);
    let imm = (imm12 << 12) | (imm11 << 11) | (imm10_5 << 5) | (imm4_1 << 1);
    BType { imm, rs2, rs1, funct3 }
}

pub fn get_s_type(ins: u32) -> (r: SType)
    ensures
        r.imm == imm_s_of(ins),
        r.rs2 == rs2_of(ins),
        r.rs1 == rs1_of(ins),
        r.funct3 == funct3_of(ins),
        r.imm < 0x1000,
        r.rs2 < 32,
        r.rs1 < 32,
        r.funct3 < 8,
{
    proof {
        lemma_field_bounds(ins);
    }
    let imm11_5 = take_range(31, 25, ins);
    let rs2 = take_range(24, 20, ins) as usize;
    let rs1 = take_range(19, 15, ins) as usize;
    let funct3 = take_range(14, 12, ins);
    let imm4_0 = take_range(11, 7, ins);
    let imm = (imm11_5 << 5) | imm4_0;
    SType { imm, rs2, rs1, funct3 }
}

} // verus!
