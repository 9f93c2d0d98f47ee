//! The mathematical model of the processor: an abstract state (memory,
//! registers, control/status registers, trap bit) and a total step function
//! over it, one case per opcode class.  The execution engine is verified
//! against this model.

use vstd::prelude::*;
use vstd::arithmetic::power2::pow2;
use crate::bits::field;
use crate::bits::signed_val;
use crate::bits::sxt;
use crate::constants::F3_ADDI;
use crate::constants::F3_ADD_SUB;
use crate::constants::F3_AND;
use crate::constants::F3_ANDI;
use crate::constants::F3_BEQ;
use crate::constants::F3_BGE;
use crate::constants::F3_BGEU;
use crate::constants::F3_BLT;
use crate::constants::F3_BLTU;
use crate::constants::F3_BNE;
use crate::constants::F3_CSRRC;
use crate::constants::F3_CSRRCI;
use crate::constants::F3_CSRRS;
use crate::constants::F3_CSRRSI;
use crate::constants::F3_CSRRW;
use crate::constants::F3_CSRRWI;
use crate::constants::F3_FENCE;
use crate::constants::F3_LB;
use crate::constants::F3_LBU;
use crate::constants::F3_LH;
use crate::constants::F3_LHU;
use crate::constants::F3_LW;
use crate::constants::F3_OR;
use crate::constants::F3_ORI;
use crate::constants::F3_PRIV;
use crate::constants::F3_SB;
use crate::constants::F3_SH;
use crate::constants::F3_SLL;
use crate::constants::F3_SLLI;
use crate::constants::F3_SLT;
use crate::constants::F3_SLTI;
use crate::constants::F3_SLTIU;
use crate::constants::F3_SLTU;
use crate::constants::F3_SRX;
use crate::constants::F3_SRXI;
use crate::constants::F3_SW;
use crate::constants::F3_XOR;
use crate::constants::F3_XORI;
use crate::constants::IMM_EBREAK;
use crate::constants::IMM_ECALL;
use crate::constants::IMM_MRET;
use crate::constants::MEMSIZE;
use crate::constants::NCSRS;
use crate::constants::NREGS;
use crate::constants::OPC_AUIPC;
use crate::constants::OPC_BRANCH;
use crate::constants::OPC_JAL;
use crate::constants::OPC_JALR;
use crate::constants::OPC_LOAD;
use crate::constants::OPC_LUI;
use crate::constants::OPC_MISCMEM;
use crate::constants::OPC_OP;
use crate::constants::OPC_OP_IMM;
use crate::constants::OPC_STORE;
use crate::constants::OPC_SYSTEM;
use crate::decode::funct3_of;
use crate::decode::funct7_of;
use crate::decode::imm_b_of;
use crate::decode::imm_i_of;
use crate::decode::imm_j_of;
use crate::decode::imm_s_of;
use crate::decode::imm_u_of;
use crate::decode::opcode_of;
use crate::decode::rd_of;
use crate::decode::rs1_of;
use crate::decode::rs2_of;

verus! {

/// The abstract processor state: the byte memory, the 33 register slots
/// (index 32 is the program counter), the 4096 control/status registers,
/// and the trap status bit set by the trap primitives.
pub struct CoreModel {
    pub mem: Seq<u8>,
    pub regs: Seq<i32>,
    pub csrs: Seq<i32>,
    pub trap: bool,
}

/// Well-formedness of an abstract state: the arrays have their architectural
/// lengths, the hardwired-zero register reads zero, and the program counter
/// is aligned to the 2-byte granularity.
pub open spec fn wf_state(s: CoreModel) -> bool {
    &&& s.mem.len() == MEMSIZE
    &&& s.regs.len() == NREGS
    &&& s.csrs.len() == NCSRS
    &&& s.regs[0] == 0
    &&& s.regs[32] as int % 2 == 0
}

/// The value of register slot `r`.
pub open spec fn reg(s: CoreModel, r: u32) -> i32 {
    s.regs[r as int]
}

/// The program counter.
pub open spec fn pc_of(s: CoreModel) -> i32 {
    s.regs[32]
}

/// Writes `v` to register `rd`; a write to the hardwired-zero register is
/// discarded.
pub open spec fn with_reg(s: CoreModel, rd: u32, v: i32) -> CoreModel {
    if rd == 0 {
        s
    } else {
        CoreModel { regs: s.regs.update(rd as int, v), ..s }
    }
}

/// Sets the program counter.
pub open spec fn with_pc(s: CoreModel, p: i32) -> CoreModel {
    CoreModel { regs: s.regs.update(32, p), ..s }
}

/// Advances the program counter by one instruction (wrapping).
pub open spec fn advance(s: CoreModel) -> CoreModel {
    with_pc(s, s.regs[32].wrapping_add(4))
}

// 32-bit two's-complement reinterpretations of the bitwise operations,
// written over the unsigned view of the operands.

pub open spec fn and32(a: i32, b: i32) -> i32 {
    ((a as u32) & (b as u32)) as i32
}

pub open spec fn or32(a: i32, b: i32) -> i32 {
    ((a as u32) | (b as u32)) as i32
}

pub open spec fn xor32(a: i32, b: i32) -> i32 {
    ((a as u32) ^ (b as u32)) as i32
}

/// `a` with every bit of `b` cleared.
pub open spec fn and_not32(a: i32, b: i32) -> i32 {
    ((a as u32) & ((b as u32) ^ 0xffff_ffffu32)) as i32
}

/// Unsigned comparison of two register values.
pub open spec fn lt_u(a: i32, b: i32) -> bool {
    (a as u32) < (b as u32)
}

/// The effective shift amount: the source masked to its low 5 bits, so a
/// shift is always by `amount mod 32`.
pub open spec fn shamt_of(v: i32) -> u32 {
    (v as u32) & 0x1f
}

/// Logical shift left.
pub open spec fn shl32(a: i32, sh: u32) -> i32 {
    ((a as u32) << sh) as i32
}

/// Logical shift right: zeroes enter from the left.
pub open spec fn srl32(a: i32, sh: u32) -> i32 {
    ((a as u32) >> sh) as i32
}

/// Arithmetic shift right: the sign bit is preserved.
pub open spec fn sra32(a: i32, sh: u32) -> i32 {
    a >> sh
}

/// The sign-extended 12-bit immediate of a register-immediate instruction.
pub open spec fn simm_i(x: u32) -> i32 {
    sxt(imm_i_of(x), 12)
}

/// The sign-extended 12-bit immediate of a store instruction.
pub open spec fn simm_s(x: u32) -> i32 {
    sxt(imm_s_of(x), 12)
}

/// The sign-extended 13-bit immediate of a branch instruction.
pub open spec fn simm_b(x: u32) -> i32 {
    sxt(imm_b_of(x), 13)
}

/// The sign-extended 21-bit immediate of a jump instruction.
pub open spec fn simm_j(x: u32) -> i32 {
    sxt(imm_j_of(x), 21)
}

/// Bit 30 of the word distinguishes add from sub and the logical from the
/// arithmetic right shift.
pub open spec fn funct7_bit(x: u32) -> u32 {
    field(30, 30, x)
}

/// The effective address of a load or store: base register plus sign-extended
/// offset, wrapped modulo the memory capacity.
pub open spec fn eff_addr(base: i32, offset: i32) -> u32 {
    (base as u32).wrapping_add(offset as u32) % (MEMSIZE as u32)
}

/// The byte `off` bytes past `ea`, with the address wrapping modulo the
/// memory capacity.
pub open spec fn byte_at(s: CoreModel, ea: u32, off: int) -> u8 {
    s.mem[(ea + off) % (MEMSIZE as int)]
}

/// The little-endian 16-bit value at `ea`.
pub open spec fn half_at(s: CoreModel, ea: u32) -> u16 {
    ((byte_at(s, ea, 1) as u16) << 8) | (byte_at(s, ea, 0) as u16)
}

/// The little-endian 32-bit value at `ea`.
pub open spec fn word_at(s: CoreModel, ea: u32) -> u32 {
    ((byte_at(s, ea, 3) as u32) << 24) | ((byte_at(s, ea, 2) as u32) << 16) | ((byte_at(
        s,
        ea,
        1,
    ) as u32) << 8) | (byte_at(s, ea, 0) as u32)
}

/// Stores one byte at `ea + off`, the address wrapping modulo the memory
/// capacity.
pub open spec fn store_byte(s: CoreModel, ea: u32, off: int, v: u8) -> CoreModel {
    CoreModel { mem: s.mem.update((ea + off) % (MEMSIZE as int), v), ..s }
}

/// The register-immediate instructions: arithmetic, comparisons, bitwise
/// operations and shifts with an immediate operand.
pub open spec fn step_op_imm(x: u32, s: CoreModel) -> CoreModel {
    let f3 = funct3_of(x);
    let a = reg(s, rs1_of(x));
    let imm = imm_i_of(x);
    let v: i32 = if f3 == F3_ADDI {
        a.wrapping_add(simm_i(x))
    } else if f3 == F3_SLLI {
        shl32(a, imm & 0x1f)
    } else if f3 == F3_SLTI {
        if a < simm_i(x) {
            1
        } else {
            0
        }
    } else if f3 == F3_SLTIU {
        if lt_u(a, simm_i(x)) {
            1
        } else {
            0
        }
    } else if f3 == F3_XORI {
        xor32(a, simm_i(x))
    } else if f3 == F3_SRXI {
        if funct7_bit(x) == 1 {
            sra32(a, imm & 0x1f)
        } else {
            srl32(a, imm & 0x1f)
        }
    } else if f3 == F3_ORI {
        or32(a, simm_i(x))
    } else {
        and32(a, simm_i(x))
    };
    advance(with_reg(s, rd_of(x), v))
}

/// The register-register instructions.
pub open spec fn step_op(x: u32, s: CoreModel) -> CoreModel {
    let f3 = funct3_of(x);
    let a = reg(s, rs1_of(x));
    let b = reg(s, rs2_of(x));
    let v: i32 = if f3 == F3_ADD_SUB {
        if funct7_bit(x) == 0 {
            a.wrapping_add(b)
        } else {
            a.wrapping_sub(b)
        }
    } else if f3 == F3_SLL {
        shl32(a, shamt_of(b))
    } else if f3 == F3_SLT {
        if a < b {
            1
        } else {
            0
        }
    } else if f3 == F3_SLTU {
        if lt_u(a, b) {
            1
        } else {
            0
        }
    } else if f3 == F3_XOR {
        xor32(a, b)
    } else if f3 == F3_SRX {
        if funct7_bit(x) == 0 {
            srl32(a, shamt_of(b))
        } else {
            sra32(a, shamt_of(b))
        }
    } else if f3 == F3_OR {
        or32(a, b)
    } else {
        and32(a, b)
    };
    advance(with_reg(s, rd_of(x), v))
}

/// The value a LUI instruction loads: the 20-bit immediate shifted left 12.
pub open spec fn lui_val(x: u32) -> i32 {
    (imm_u_of(x) << 12u32) as i32
}

/// LUI and AUIPC.
pub open spec fn step_upper(x: u32, s: CoreModel) -> CoreModel {
    let v: i32 = if opcode_of(x) == OPC_LUI {
        lui_val(x)
    } else {
        pc_of(s).wrapping_add(lui_val(x))
    };
    advance(with_reg(s, rd_of(x), v))
}

/// JAL: the return address goes to `rd`, and the program counter jumps by
/// the sign-extended 21-bit immediate, which is always even.
pub open spec fn step_jal(x: u32, s: CoreModel) -> CoreModel {
    let t = pc_of(s);
    with_pc(with_reg(s, rd_of(x), t.wrapping_add(4)), t.wrapping_add(simm_j(x)))
}

/// A jump target with its least-significant bit cleared, as JALR requires.
pub open spec fn clear_bit0(v: i32) -> i32 {
    ((v as u32) & 0xffff_fffeu32) as i32
}

/// JALR: the return address goes to `rd`, and the program counter becomes
/// base plus offset with the low bit cleared.
pub open spec fn step_jalr(x: u32, s: CoreModel) -> CoreModel {
    let t = pc_of(s);
    let target = clear_bit0(reg(s, rs1_of(x)).wrapping_add(simm_i(x)));
    with_pc(with_reg(s, rd_of(x), t.wrapping_add(4)), target)
}

/// Whether a branch with selector `f3` is taken on operands `a` and `b`.
pub open spec fn branch_taken(f3: u32, a: i32, b: i32) -> bool {
    if f3 == F3_BEQ {
        a == b
    } else if f3 == F3_BNE {
        a != b
    } else if f3 == F3_BLT {
        a < b
    } else if f3 == F3_BLTU {
        lt_u(a, b)
    } else if f3 == F3_BGE {
        a >= b
    } else {
        !lt_u(a, b)
    }
}

/// The target of a taken branch: the program counter plus the sign-extended
/// 13-bit immediate, wrapped modulo the memory capacity.
pub open spec fn branch_target(x: u32, s: CoreModel) -> i32 {
    ((pc_of(s) as u32).wrapping_add(simm_b(x) as u32) % (MEMSIZE as u32)) as i32
}

/// The branch instructions: a taken branch sets the program counter to the
/// target; an untaken one falls through to the generic advance.
pub open spec fn step_branch(x: u32, s: CoreModel) -> CoreModel {
    if branch_taken(funct3_of(x), reg(s, rs1_of(x)), reg(s, rs2_of(x))) {
        with_pc(s, branch_target(x, s))
    } else {
        advance(s)
    }
}

/// The value a load instruction writes to `rd`: 1, 2 or 4 bytes read
/// little-endian at the effective address, sign- or zero-extended.
pub open spec fn load_val(x: u32, s: CoreModel) -> i32 {
    let f3 = funct3_of(x);
    let ea = eff_addr(reg(s, rs1_of(x)), simm_i(x));
    if f3 == F3_LB {
        (byte_at(s, ea, 0) as i8) as i32
    } else if f3 == F3_LBU {
        byte_at(s, ea, 0) as i32
    } else if f3 == F3_LH {
        (half_at(s, ea) as i16) as i32
    } else if f3 == F3_LHU {
        half_at(s, ea) as i32
    } else {
        word_at(s, ea) as i32
    }
}

/// The load instructions.
pub open spec fn step_load(x: u32, s: CoreModel) -> CoreModel {
    advance(with_reg(s, rd_of(x), load_val(x, s)))
}

/// The store instructions: 1, 2 or 4 bytes of `rs2` written little-endian
/// at the effective address.
pub open spec fn step_store(x: u32, s: CoreModel) -> CoreModel {
    let f3 = funct3_of(x);
    let ea = eff_addr(reg(s, rs1_of(x)), simm_s(x));
    let v = reg(s, rs2_of(x)) as u32;
    let s1 = if f3 == F3_SB {
        store_byte(s, ea, 0, v as u8)
    } else if f3 == F3_SH {
        store_byte(store_byte(s, ea, 0, v as u8), ea, 1, (v >> 8u32) as u8)
    } else {
        store_byte(
            store_byte(
                store_byte(store_byte(s, ea, 0, v as u8), ea, 1, (v >> 8u32) as u8),
                ea,
                2,
                (v >> 16u32) as u8,
            ),
            ea,
            3,
            (v >> 24u32) as u8,
        )
    };
    advance(s1)
}

/// The source value of a CSR instruction: the `rs1` register for the
/// register forms, the 5-bit `rs1` field itself for the immediate forms.
pub open spec fn csr_src(x: u32, s: CoreModel) -> i32 {
    let f3 = funct3_of(x);
    if f3 == F3_CSRRW || f3 == F3_CSRRS || f3 == F3_CSRRC {
        reg(s, rs1_of(x))
    } else {
        rs1_of(x) as i32
    }
}

/// The new value of the addressed CSR: overwritten, OR-ed with the source,
/// or AND-ed with the complement of the source.
pub open spec fn csr_next(f3: u32, old_csr: i32, src: i32) -> i32 {
    if f3 == F3_CSRRW || f3 == F3_CSRRWI {
        src
    } else if f3 == F3_CSRRS || f3 == F3_CSRRSI {
        or32(old_csr, src)
    } else {
        and_not32(old_csr, src)
    }
}

/// The CSR instructions: the old CSR value is read into `rd` (discarded for
/// the zero register) before the side effect is applied.
pub open spec fn step_csr(x: u32, s: CoreModel) -> CoreModel {
    let idx = imm_i_of(x);
    let t = s.csrs[idx as int];
    let src = csr_src(x, s);
    let s1 = with_reg(s, rd_of(x), t);
    let s2 = CoreModel { csrs: s1.csrs.update(idx as int, csr_next(funct3_of(x), t, src)), ..s1 };
    advance(s2)
}

/// The trap primitives ECALL, EBREAK and MRET: recognized, the trap status
/// bit is set, and execution falls through to the next instruction.  No trap
/// delivery or privilege switch is modeled.
pub open spec fn step_trap(s: CoreModel) -> CoreModel {
    advance(CoreModel { trap: true, ..s })
}

/// The SYSTEM opcode: trap primitives under funct3 0, CSR instructions
/// otherwise.
pub open spec fn step_system(x: u32, s: CoreModel) -> CoreModel {
    if funct3_of(x) == F3_PRIV {
        step_trap(s)
    } else {
        step_csr(x, s)
    }
}

/// Whether the primary opcode of `x` belongs to the instruction set.
pub open spec fn known_opcode(x: u32) -> bool {
    let op = opcode_of(x);
    ||| op == OPC_OP
    ||| op == OPC_OP_IMM
    ||| op == OPC_LUI
    ||| op == OPC_AUIPC
    ||| op == OPC_JAL
    ||| op == OPC_JALR
    ||| op == OPC_BRANCH
    ||| op == OPC_LOAD
    ||| op == OPC_STORE
    ||| op == OPC_MISCMEM
    ||| op == OPC_SYSTEM
}

/// Whether `x` decodes to an instruction the engine executes: a known
/// opcode whose sub-opcode selectors are all mapped.  Unmapped combinations
/// are treated as fatal decode errors, uniformly.
pub open spec fn recognized(x: u32) -> bool {
    let op = opcode_of(x);
    let f3 = funct3_of(x);
    if op == OPC_OP || op == OPC_OP_IMM || op == OPC_LUI || op == OPC_AUIPC || op == OPC_JAL || op
        == OPC_JALR {
        true
    } else if op == OPC_BRANCH {
        f3 == F3_BEQ || f3 == F3_BNE || f3 == F3_BLT || f3 == F3_BLTU || f3 == F3_BGE || f3
            == F3_BGEU
    } else if op == OPC_LOAD {
        f3 == F3_LB || f3 == F3_LH || f3 == F3_LW || f3 == F3_LBU || f3 == F3_LHU
    } else if op == OPC_STORE {
        f3 == F3_SB || f3 == F3_SH || f3 == F3_SW
    } else if op == OPC_MISCMEM {
        f3 == F3_FENCE
    } else if op == OPC_SYSTEM {
        if f3 == F3_PRIV {
            imm_i_of(x) == IMM_ECALL || imm_i_of(x) == IMM_EBREAK || imm_i_of(x) == IMM_MRET
        } else {
            f3 != 0b100
        }
    } else {
        false
    }
}

/// One execution step on a recognized instruction; the identity on an
/// unrecognized one.
pub open spec fn eval_spec(x: u32, s: CoreModel) -> CoreModel {
    let op = opcode_of(x);
    if !recognized(x) {
        s
    } else if op == OPC_OP_IMM {
        step_op_imm(x, s)
    } else if op == OPC_OP {
        step_op(x, s)
    } else if op == OPC_LUI || op == OPC_AUIPC {
        step_upper(x, s)
    } else if op == OPC_JAL {
        step_jal(x, s)
    } else if op == OPC_JALR {
        step_jalr(x, s)
    } else if op == OPC_BRANCH {
        step_branch(x, s)
    } else if op == OPC_LOAD {
        step_load(x, s)
    } else if op == OPC_STORE {
        step_store(x, s)
    } else if op == OPC_MISCMEM {
        advance(s)
    } else {
        step_system(x, s)
    }
}

/// Whether the program counter denotes four fetchable bytes.
pub open spec fn fetch_in_range(s: CoreModel) -> bool {
    0 <= s.regs[32] && s.regs[32] + 3 < MEMSIZE
}

/// The little-endian instruction word at the program counter.
pub open spec fn fetched(s: CoreModel) -> u32 {
    word_at(s, s.regs[32] as u32)
}

/// Whether the driver stops at this state: the program counter has left the
/// fetchable range, the fetched word is the all-zero halt sentinel, or it is
/// not a recognized instruction.
pub open spec fn stuck(s: CoreModel) -> bool {
    !fetch_in_range(s) || fetched(s) == 0 || !recognized(fetched(s))
}

/// One driver step: fetch and execute, or stay put when stuck.
pub open spec fn run_step(s: CoreModel) -> CoreModel {
    if stuck(s) {
        s
    } else {
        eval_spec(fetched(s), s)
    }
}

/// `n` driver steps.
pub open spec fn iter_step(s: CoreModel, n: nat) -> CoreModel
    decreases n,
{
    if n == 0 {
        s
    } else {
        run_step(iter_step(s, (n - 1) as nat))
    }
}

/// An even immediate sign-extends to an even offset.
proof fn lemma_sxt_even(v: u32, bits: u32)
    requires
        bits == 13 || bits == 21,
        v % 2 == 0,
        (v as nat) < pow2(bits as nat),
    ensures
        (sxt(v, bits) as int) % 2 == 0,
{
    vstd::arithmetic::power2::lemma2_to64();
    crate::bits::lemma_signed_val_fits(v, bits);
}

/// A JALR target has its low bit cleared, so it is always even.
proof fn lemma_clear_bit0_even(v: i32)
    by (bit_vector)
    ensures
        (clear_bit0(v) as int) % 2 == 0,
{
}

/// A branch target is even whenever the program counter and the branch
/// offset are.
proof fn lemma_branch_target_even(x: u32, s: CoreModel)
    requires
        (pc_of(s) as int) % 2 == 0,
        (simm_b(x) as int) % 2 == 0,
    ensures
        (branch_target(x, s) as int) % 2 == 0,
{
    crate::bits::lemma_cast_parity(pc_of(s));
    crate::bits::lemma_cast_parity(simm_b(x));
    let u = (pc_of(s) as u32).wrapping_add(simm_b(x) as u32);
    assert(u as int % 2 == 0);
    assert(2 * 2048 == 4096) by (nonlinear_arith);
    vstd::arithmetic::div_mod::lemma_mod_mod(u as int, 2, 2048);
    assert((u % (MEMSIZE as u32)) as int == u as int % 4096);
}

/// The effective shift amount of a register-sourced shift is the source
/// value modulo 32, regardless of its sign or magnitude.
pub proof fn lemma_shift_amount_register(v: i32)
    ensures
        shamt_of(v) as int == (v as int) % 32,
{
    assert(((v as u32) & 0x1f) as int == (v as int) % 32) by (bit_vector);
}

/// The effective shift amount of an immediate-sourced shift is the
/// immediate field modulo 32, regardless of its magnitude.
pub proof fn lemma_shift_amount_immediate(imm: u32)
    ensures
        (imm & 0x1f) as int == (imm as int) % 32,
{
    assert((imm & 0x1f) as int == (imm as int) % 32) by (bit_vector);
}

/// Adding a multiple of 2^32 does not change a residue modulo the memory
/// capacity, which divides 2^32.
proof fn lemma_mod_memsize_wrap(x: int)
    ensures
        (x + 0x1_0000_0000) % (MEMSIZE as int) == x % (MEMSIZE as int),
{
    vstd::arithmetic::div_mod::lemma_mod_multiples_vanish(0x10_0000, x, MEMSIZE as int);
}

/// The effective address of every load and store is base plus sign-extended
/// offset, modulo the memory capacity — wrapping 32-bit addition followed by
/// the capacity wrap computes exactly that remainder.
pub proof fn lemma_effective_address(base: i32, offset: i32)
    ensures
        eff_addr(base, offset) as int == (base + offset) % (MEMSIZE as int),
{
    let a = base as u32;
    let b = offset as u32;
    assert((a as int == base + (if base < 0 {
        0x1_0000_0000int
    } else {
        0int
    })) && (b as int == offset + (if offset < 0 {
        0x1_0000_0000int
    } else {
        0int
    }))) by (bit_vector)
        requires
            a == base as u32 && b == offset as u32,
    ;
    let w = a.wrapping_add(b);
    let x = base + offset;
    assert(w as int == x || w as int == x + 0x1_0000_0000 || w as int == x + 0x2_0000_0000);
    lemma_mod_memsize_wrap(x);
    lemma_mod_memsize_wrap(x + 0x1_0000_0000);
    assert((w % (MEMSIZE as u32)) as int == (w as int) % (MEMSIZE as int));
}

/// Reading a CSR through a set or clear instruction whose source value is
/// zero leaves every CSR unchanged: the old value lands in `rd`, and the
/// side effect is the identity.
pub proof fn lemma_csr_read_idempotent(x: u32, s: CoreModel)
    requires
        wf_state(s),
        opcode_of(x) == OPC_SYSTEM,
        funct3_of(x) == F3_CSRRS || funct3_of(x) == F3_CSRRC || funct3_of(x) == F3_CSRRSI
            || funct3_of(x) == F3_CSRRCI,
        csr_src(x, s) == 0,
    ensures
        eval_spec(x, s).csrs == s.csrs,
        eval_spec(x, s) == advance(with_reg(s, rd_of(x), s.csrs[imm_i_of(x) as int])),
{
    crate::decode::lemma_field_bounds(x);
    let idx = imm_i_of(x);
    let t = s.csrs[idx as int];
    assert((((t as u32) | (0i32 as u32)) as i32) == t && (((t as u32) & ((0i32 as u32)
        ^ 0xffff_ffffu32)) as i32) == t) by (bit_vector);
    assert(csr_next(funct3_of(x), t, 0) == t);
    assert(s.csrs.update(idx as int, t) =~= s.csrs);
}

/// Executing any recognized instruction preserves well-formedness: the
/// array lengths, the hardwired-zero register, and the 2-byte alignment of
/// the program counter.
pub proof fn lemma_eval_spec_wf(x: u32, s: CoreModel)
    requires
        wf_state(s),
    ensures
        wf_state(eval_spec(x, s)),
        eval_spec(x, s).regs[0] == 0,
{
    crate::decode::lemma_field_bounds(x);
    vstd::arithmetic::power2::lemma2_to64();
    let op = opcode_of(x);
    if recognized(x) {
        if op == OPC_JAL {
            lemma_sxt_even(imm_j_of(x), 21);
        } else if op == OPC_JALR {
            lemma_clear_bit0_even(reg(s, rs1_of(x)).wrapping_add(simm_i(x)));
        } else if op == OPC_BRANCH {
            if branch_taken(funct3_of(x), reg(s, rs1_of(x)), reg(s, rs2_of(x))) {
                lemma_sxt_even(imm_b_of(x), 13);
                lemma_branch_target_even(x, s);
            }
        }
    }
}

} // verus!
