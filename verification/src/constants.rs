//! Architectural constants: memory capacity, register-file layout, primary
//! opcodes, and the funct3 selectors of each opcode class.

use vstd::prelude::*;

verus! {

/// Number of bytes in the simulated flat memory.  Offset 0 corresponds to the
/// architectural load address.
pub const MEMSIZE: usize = 4 * 1024;

/// Number of register slots: 32 general-purpose registers plus the program
/// counter.
pub const NREGS: usize = 33;

/// Index of the program-counter slot in the register file.
pub const PC: usize = 32;

/// Number of control/status registers, addressed by a 12-bit index.
pub const NCSRS: usize = 4096;

/// The architectural load address that memory offset 0 corresponds to.
pub const START_ADDR: u32 = 0x8000_0000;

// Primary opcodes (bits 6..0 of an instruction word).
pub const OPC_OP: u32 = 0b0110011;
pub const OPC_OP_IMM: u32 = 0b0010011;
pub const OPC_LUI: u32 = 0b0110111;
pub const OPC_AUIPC: u32 = 0b0010111;
pub const OPC_JAL: u32 = 0b1101111;
pub const OPC_JALR: u32 = 0b1100111;
pub const OPC_BRANCH: u32 = 0b1100011;
pub const OPC_LOAD: u32 = 0b0000011;
pub const OPC_STORE: u32 = 0b0100011;
pub const OPC_MISCMEM: u32 = 0b0001111;
pub const OPC_SYSTEM: u32 = 0b1110011;

// funct3 selectors under the register-immediate opcode.
pub const F3_ADDI: u32 = 0b000;
pub const F3_SLLI: u32 = 0b001;
pub const F3_SLTI: u32 = 0b010;
pub const F3_SLTIU: u32 = 0b011;
pub const F3_XORI: u32 = 0b100;
pub const F3_SRXI: u32 = 0b101;
pub const F3_ORI: u32 = 0b110;
pub const F3_ANDI: u32 = 0b111;

// funct3 selectors under the register-register opcode.
pub const F3_ADD_SUB: u32 = 0b000;
pub const F3_SLL: u32 = 0b001;
pub const F3_SLT: u32 = 0b010;
pub const F3_SLTU: u32 = 0b011;
pub const F3_XOR: u32 = 0b100;
pub const F3_SRX: u32 = 0b101;
pub const F3_OR: u32 = 0b110;
pub const F3_AND: u32 = 0b111;

// funct3 selectors under the branch opcode.
pub const F3_BEQ: u32 = 0b000;
pub const F3_BNE: u32 = 0b001;
pub const F3_BLT: u32 = 0b100;
pub const F3_BGE: u32 = 0b101;
pub const F3_BLTU: u32 = 0b110;
pub const F3_BGEU: u32 = 0b111;

// funct3 selectors under the load and store opcodes.
pub const F3_LB: u32 = 0b000;
pub const F3_LH: u32 = 0b001;
pub const F3_LW: u32 = 0b010;
pub const F3_LBU: u32 = 0b100;
pub const F3_LHU: u32 = 0b101;
pub const F3_SB: u32 = 0b000;
pub const F3_SH: u32 = 0b001;
pub const F3_SW: u32 = 0b010;

// funct3 selector under the memory-ordering opcode.
pub const F3_FENCE: u32 = 0b000;

// funct3 selectors under the SYSTEM opcode.
pub const F3_PRIV: u32 = 0b000;
pub const F3_CSRRW: u32 = 0b001;
pub const F3_CSRRS: u32 = 0b010;
pub const F3_CSRRC: u32 = 0b011;
pub const F3_CSRRWI: u32 = 0b101;
pub const F3_CSRRSI: u32 = 0b110;
pub const F3_CSRRCI: u32 = 0b111;

// 12-bit immediate fields that select the trap primitives under the SYSTEM
// opcode with funct3 = F3_PRIV.
pub const IMM_ECALL: u32 = 0x000;
pub const IMM_EBREAK: u32 = 0x001;
pub const IMM_MRET: u32 = 0x302;

} // verus!
