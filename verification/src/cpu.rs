//! The processor: the owned state container and the fetch-decode-execute
//! engine, verified against the abstract model of `crate::model`.

use vstd::prelude::*;
use crate::constants::F3_ADDI;
use crate::constants::F3_ADD_SUB;
use crate::constants::F3_BEQ;
use crate::constants::F3_BGE;
use crate::constants::F3_BGEU;
use crate::constants::F3_BLT;
use crate::constants::F3_BLTU;
use crate::constants::F3_BNE;
use crate::constants::F3_CSRRC;
use crate::constants::F3_CSRRS;
use crate::constants::F3_CSRRSI;
use crate::constants::F3_CSRRW;
use crate::constants::F3_CSRRWI;
use crate::constants::F3_FENCE;
use crate::constants::F3_LB;
use crate::constants::F3_LBU;
use crate::constants::F3_LH;
use crate::constants::F3_LHU;
use crate::constants::F3_LW;
use crate::constants::F3_ORI;
use crate::constants::F3_OR;
use crate::constants::F3_PRIV;
use crate::constants::F3_SB;
use crate::constants::F3_SH;
use crate::constants::F3_SLL;
use crate::constants::F3_SLLI;
use crate::constants::F3_SLT;
use crate::constants::F3_SLTI;
use crate::constants::F3_SLTIU;
use crate::constants::F3_SLTU;
use crate::constants::F3_SRX;
use crate::constants::F3_SRXI;
use crate::constants::F3_SW;
use crate::constants::F3_XOR;
use crate::constants::F3_XORI;
use crate::constants::IMM_EBREAK;
use crate::constants::IMM_ECALL;
use crate::constants::IMM_MRET;
use crate::constants::MEMSIZE;
use crate::constants::NCSRS;
use crate::constants::NREGS;
use crate::constants::OPC_AUIPC;
use crate::constants::OPC_BRANCH;
use crate::constants::OPC_JAL;
use crate::constants::OPC_JALR;
use crate::constants::OPC_LOAD;
use crate::constants::OPC_LUI;
use crate::constants::OPC_MISCMEM;
use crate::constants::OPC_OP;
use crate::constants::OPC_OP_IMM;
use crate::constants::OPC_STORE;
use crate::constants::OPC_SYSTEM;
use crate::bits::lemma_mask5_bound;
use crate::bits::sign_extend;
use crate::bits::take_range;
use crate::decode::get_b_type;
use crate::decode::get_i_type;
use crate::decode::get_j_type;
use crate::decode::get_r_type;
use crate::decode::get_s_type;
use crate::decode::get_u_type;
use crate::model::CoreModel;
use crate::model::advance;
use crate::model::byte_at;
use crate::model::eff_addr;
use crate::model::eval_spec;
use crate::model::fetch_in_range;
use crate::model::fetched;
use crate::model::iter_step;
use crate::model::known_opcode;
use crate::model::lemma_eval_spec_wf;
use crate::model::recognized;
use crate::model::run_step;
use crate::model::stuck;
use crate::model::wf_state;
use crate::model::with_reg;

verus! {

/// The single owned aggregate of a simulated hart: the flat byte memory,
/// the 33 register slots (slot 32 is the program counter), the 4096
/// control/status registers, and the trap status bit.
pub struct Core {
    pub memory: Vec<u8>,
    pub regs: Vec<i32>,
    pub csrs: Vec<i32>,
    pub trap: bool,
}

impl View for Core {
    type V = CoreModel;

    open spec fn view(&self) -> CoreModel {
        CoreModel { mem: self.memory@, regs: self.regs@, csrs: self.csrs@, trap: self.trap }
    }
}

impl Core {
    /// Well-formedness of the concrete state: its abstraction is a
    /// well-formed model state.
    pub open spec fn wf(&self) -> bool {
        wf_state(self@)
    }

    /// A fresh core: memory, registers and CSRs all zero, no trap pending.
    pub fn new() -> (c: Core)
        ensures
            c.wf(),
            c@.mem.len() == MEMSIZE,
            c@.regs.len() == NREGS,
            c@.csrs.len() == NCSRS,
            forall|i: int| 0 <= i < MEMSIZE ==> c@.mem[i] == 0,
            forall|i: int| 0 <= i < NREGS ==> c@.regs[i] == 0,
            forall|i: int| 0 <= i < NCSRS ==> c@.csrs[i] == 0,
            !c@.trap,
    {
        Core {
            memory: zero_bytes(MEMSIZE),
            regs: zero_words(NREGS),
            csrs: zero_words(NCSRS),
            trap: false,
        }
    }
}

fn zero_bytes(n: usize) -> (v: Vec<u8>)
    ensures
        v@.len() == n,
        forall|i: int| 0 <= i < n ==> v@[i] == 0,
{
    let mut v: Vec<u8> = Vec::new();
    let mut i: usize = 0;
    while i < n
        invariant
            i <= n,
            v@.len() == i,
            forall|j: int| 0 <= j < i ==> v@[j] == 0,
        decreases n - i,
    {
        v.push(0);
        i = i + 1;
    }
    v
}

fn zero_words(n: usize) -> (v: Vec<i32>)
    ensures
        v@.len() == n,
        forall|i: int| 0 <= i < n ==> v@[i] == 0,
{
    let mut v: Vec<i32> = Vec::new();
    let mut i: usize = 0;
    while i < n
        invariant
            i <= n,
            v@.len() == i,
            forall|j: int| 0 <= j < i ==> v@[j] == 0,
        decreases n - i,
    {
        v.push(0);
        i = i + 1;
    }
    v
}

/// Why an instruction was rejected: an opcode outside the instruction set,
/// or an unmapped funct3/funct7/system selector under a known opcode.
#[derive(Clone, Copy, Debug, PartialEq, Eq)]
pub enum ExecFault {
    UnknownOpcode,
    UnknownFunct,
}

/// The unsigned reinterpretation of a register value.
fn u32_of(v: i32) -> (r: u32)
    ensures
        r == v as u32,
{
    #[verifier::truncate] (v as u32)
}

/// The signed reinterpretation of a 32-bit value.
fn i32_of(v: u32) -> (r: i32)
    ensures
        r == v as i32,
{
    #[verifier::truncate] (v as i32)
}

/// Writes `v` to register `rd`; a write to the hardwired-zero register is
/// discarded, exactly as `with_reg` says.
fn write_reg(core: &mut Core, rd: usize, v: i32)
    requires
        old(core)@.regs.len() == NREGS,
        rd < 32,
    ensures
        final(core)@ == with_reg(old(core)@, rd as u32, v),
{
    if rd != 0 {
        core.regs[rd] = v;
    }
}

/// Advances the program counter by one instruction (wrapping).
fn advance_pc(core: &mut Core)
    requires
        old(core)@.regs.len() == NREGS,
    ensures
        final(core)@ == advance(old(core)@),
{
    let pc = core.regs[32];
    core.regs[32] = pc.wrapping_add(4);
}

/// The effective address of a load or store: base plus offset, wrapping
/// modulo the memory capacity.
fn eff_addr_x(base: i32, offset: i32) -> (r: u32)
    ensures
        r == eff_addr(base, offset),
        r < MEMSIZE,
{
    u32_of(base).wrapping_add(u32_of(offset)) % (MEMSIZE as u32)
}

/// The byte `k` bytes past `ea`, the address wrapping modulo the memory
/// capacity.
fn mem_byte(core: &Core, ea: u32, k: u32) -> (r: u8)
    requires
        core@.mem.len() == MEMSIZE,
        ea < MEMSIZE,
        k <= 3,
    ensures
        r == byte_at(core@, ea, k as int),
{
    core.memory[((ea + k) % (MEMSIZE as u32)) as usize]
}

/// Stores `v` at the byte `k` bytes past `ea`, the address wrapping modulo
/// the memory capacity.
fn set_byte(core: &mut Core, ea: u32, k: u32, v: u8)
    requires
        old(core)@.mem.len() == MEMSIZE,
        ea < MEMSIZE,
        k <= 3,
    ensures
        final(core)@ == crate::model::store_byte(old(core)@, ea, k as int, v),
{
    core.memory[((ea + k) % (MEMSIZE as u32)) as usize] = v;
}

/// Executes one decoded instruction against the processor state.
///
/// A recognized instruction is executed exactly as the model's step function
/// says, and the call returns success.  An unrecognized word is a fatal
/// decode error, applied uniformly: the state is left untouched and the
/// fault says whether the opcode itself or a sub-opcode selector was
/// unmapped.
pub fn eval(ins: u32, core: &mut Core) -> (r: Result<(), ExecFault>)
    requires
        old(core).wf(),
    ensures
        final(core).wf(),
        final(core)@.regs[0] == 0,
        recognized(ins) ==> final(core)@ == eval_spec(ins, old(core)@),
        recognized(ins) ==> r == Result::<(), ExecFault>::Ok(()),
        !recognized(ins) ==> final(core)@ == old(core)@,
        !known_opcode(ins) ==> r == Result::<(), ExecFault>::Err(ExecFault::UnknownOpcode),
        known_opcode(ins) && !recognized(ins) ==> r == Result::<(), ExecFault>::Err(
            ExecFault::UnknownFunct,
        ),
{
    proof {
        lemma_eval_spec_wf(ins, old(core)@);
        crate::decode::lemma_field_bounds(ins);
        vstd::arithmetic::power2::lemma2_to64();
    }
    let opcode = take_range(6, 0, ins);
    match opcode {
        OPC_OP_IMM => {
            let it = get_i_type(ins);
            let a = core.regs[it.rs1];
            let v: i32 = match it.funct3 {
                F3_ADDI => a.wrapping_add(sign_extend(it.imm, 12)),
                F3_SLLI => {
                    let shamt = it.imm & 0x1f;
                    proof {
                        lemma_mask5_bound(it.imm);
                    }
                    i32_of(u32_of(a) << shamt)
                },
                F3_SLTI => {
                    if a < sign_extend(it.imm, 12) {
                        1
                    } else {
                        0
                    }
                },
                F3_SLTIU => {
                    if u32_of(a) < u32_of(sign_extend(it.imm, 12)) {
                        1
                    } else {
                        0
                    }
                },
                F3_XORI => i32_of(u32_of(a) ^ u32_of(sign_extend(it.imm, 12))),
                F3_SRXI => {
                    let arithmetic = take_range(30, 30, ins);
                    let shamt = it.imm & 0x1f;
                    proof {
                        lemma_mask5_bound(it.imm);
                    }
                    if arithmetic == 1 {
                        a >> shamt
                    } else {
                        i32_of(u32_of(a) >> shamt)
                    }
                },
                F3_ORI => i32_of(u32_of(a) | u32_of(sign_extend(it.imm, 12))),
                _ => i32_of(u32_of(a) & u32_of(sign_extend(it.imm, 12))),
            };
            write_reg(core, it.rd, v);
            advance_pc(core);
            Ok(())
        },
        OPC_OP => {
            let rt = get_r_type(ins);
            let a = core.regs[rt.rs1];
            let b = core.regs[rt.rs2];
            let v: i32 = match rt.funct3 {
                F3_ADD_SUB => {
                    let arithmetic = take_range(30, 30, ins);
                    if arithmetic == 0 {
                        a.wrapping_add(b)
                    } else {
                        a.wrapping_sub(b)
                    }
                },
                F3_SLL => {
                    let bu = u32_of(b);
                    let shamt = bu & 0x1f;
                    proof {
                        lemma_mask5_bound(bu);
                    }
                    i32_of(u32_of(a) << shamt)
                },
                F3_SLT => {
                    if a < b {
                        1
                    } else {
                        0
                    }
                },
                F3_SLTU => {
                    if u32_of(a) < u32_of(b) {
                        1
                    } else {
                        0
                    }
                },
                F3_XOR => i32_of(u32_of(a) ^ u32_of(b)),
                F3_SRX => {
                    let arithmetic = take_range(30, 30, ins);
                    let bu = u32_of(b);
                    let shamt = bu & 0x1f;
                    proof {
                        lemma_mask5_bound(bu);
                    }
                    if arithmetic == 0 {
                        i32_of(u32_of(a) >> shamt)
                    } else {
                        a >> shamt
                    }
                },
                F3_OR => i32_of(u32_of(a) | u32_of(b)),
                _ => i32_of(u32_of(a) & u32_of(b)),
            };
            write_reg(core, rt.rd, v);
            advance_pc(core);
            Ok(())
        },
        OPC_LUI => {
            let ut = get_u_type(ins);
            let v = i32_of(ut.imm << 12u32);
            write_reg(core, ut.rd, v);
            advance_pc(core);
            Ok(())
        },
        OPC_AUIPC => {
            let ut = get_u_type(ins);
            let v = core.regs[32].wrapping_add(i32_of(ut.imm << 12u32));
            write_reg(core, ut.rd, v);
            advance_pc(core);
            Ok(())
        },
        OPC_JAL => {
            let jt = get_j_type(ins);
            let signed = sign_extend(jt.imm, 21);
            let t = core.regs[32];
            write_reg(core, jt.rd, t.wrapping_add(4));
            core.regs[32] = t.wrapping_add(signed);
            Ok(())
        },
        OPC_JALR => {
            let it = get_i_type(ins);
            let signed = sign_extend(it.imm, 12);
            let val = core.regs[it.rs1].wrapping_add(signed);
            let t = core.regs[32];
            write_reg(core, it.rd, t.wrapping_add(4));
            core.regs[32] = i32_of(u32_of(val) & 0xffff_fffe);
            Ok(())
        },
        OPC_BRANCH => {
            let bt = get_b_type(ins);
            let signed = sign_extend(bt.imm, 13);
            let target = i32_of(
                u32_of(core.regs[32]).wrapping_add(u32_of(signed)) % (MEMSIZE as u32),
            );
            let a = core.regs[bt.rs1];
            let b = core.regs[bt.rs2];
            let taken: bool = match bt.funct3 {
                F3_BEQ => a == b,
                F3_BNE => a != b,
                F3_BLT => a < b,
                F3_BLTU => u32_of(a) < u32_of(b),
                F3_BGE => a >= b,
                F3_BGEU => u32_of(a) >= u32_of(b),
                _ => {
                    return Err(ExecFault::UnknownFunct);
                },
            };
            if taken {
                core.regs[32] = target;
            } else {
                advance_pc(core);
            }
            Ok(())
        },
        OPC_LOAD => {
            let it = get_i_type(ins);
            let signed = sign_extend(it.imm, 12);
            let ea = eff_addr_x(core.regs[it.rs1], signed);
            let v: i32 = match it.funct3 {
                F3_LB => (mem_byte(core, ea, 0) as i8) as i32,
                F3_LBU => mem_byte(core, ea, 0) as i32,
                F3_LH => {
                    let b1 = mem_byte(core, ea, 0) as u16;
                    let b2 = mem_byte(core, ea, 1) as u16;
                    (((b2 << 8u16) | b1) as i16) as i32
                },
                F3_LHU => {
                    let b1 = mem_byte(core, ea, 0) as u16;
                    let b2 = mem_byte(core, ea, 1) as u16;
                    ((b2 << 8u16) | b1) as i32
                },
                F3_LW => {
                    let b1 = mem_byte(core, ea, 0) as u32;
                    let b2 = mem_byte(core, ea, 1) as u32;
                    let b3 = mem_byte(core, ea, 2) as u32;
                    let b4 = mem_byte(core, ea, 3) as u32;
                    i32_of((b4 << 24u32) | (b3 << 16u32) | (b2 << 8u32) | b1)
                },
                _ => {
                    return Err(ExecFault::UnknownFunct);
                },
            };
            write_reg(core, it.rd, v);
            advance_pc(core);
            Ok(())
        },
        OPC_STORE => {
            let st = get_s_type(ins);
            let signed = sign_extend(st.imm, 12);
            let ea = eff_addr_x(core.regs[st.rs1], signed);
            let v = u32_of(core.regs[st.rs2]);
            match st.funct3 {
                F3_SB => {
                    set_byte(core, ea, 0, #[verifier::truncate] (v as u8));
                },
                F3_SH => {
                    set_byte(core, ea, 0, #[verifier::truncate] (v as u8));
                    set_byte(core, ea, 1, #[verifier::truncate] ((v >> 8u32) as u8));
                },
                F3_SW => {
                    set_byte(core, ea, 0, #[verifier::truncate] (v as u8));
                    set_byte(core, ea, 1, #[verifier::truncate] ((v >> 8u32) as u8));
                    set_byte(core, ea, 2, #[verifier::truncate] ((v >> 16u32) as u8));
                    set_byte(core, ea, 3, (v >> 24u32) as u8);
                },
                _ => {
                    return Err(ExecFault::UnknownFunct);
                },
            }
            advance_pc(core);
            Ok(())
        },
        OPC_MISCMEM => {
            let funct3 = take_range(14, 12, ins);
            match funct3 {
                F3_FENCE => {
                    // A single hart executing in order: nothing to
                    // synchronize, so a fence only falls through.
                    advance_pc(core);
                    Ok(())
                },
                _ => Err(ExecFault::UnknownFunct),
            }
        },
        OPC_SYSTEM => {
            let it = get_i_type(ins);
            if it.funct3 == F3_PRIV {
                match it.imm {
                    IMM_ECALL | IMM_EBREAK | IMM_MRET => {
                        core.trap = true;
                        advance_pc(core);
                        Ok(())
                    },
                    _ => Err(ExecFault::UnknownFunct),
                }
            } else if it.funct3 == 0b100 {
                Err(ExecFault::UnknownFunct)
            } else {
                let idx = it.imm as usize;
                let t = core.csrs[idx];
                let src: i32 = if it.funct3 == F3_CSRRW || it.funct3 == F3_CSRRS || it.funct3
                    == F3_CSRRC {
                    core.regs[it.rs1]
                } else {
                    it.rs1 as i32
                };
                write_reg(core, it.rd, t);
                let next: i32 = if it.funct3 == F3_CSRRW || it.funct3 == F3_CSRRWI {
                    src
                } else if it.funct3 == F3_CSRRS || it.funct3 == F3_CSRRSI {
                    i32_of(u32_of(t) | u32_of(src))
                } else {
                    i32_of(u32_of(t) & (u32_of(src) ^ 0xffff_ffff))
                };
                core.csrs[idx] = next;
                advance_pc(core);
                Ok(())
            }
        },
        _ => Err(ExecFault::UnknownOpcode),
    }
}

/// Stores a 32-bit value little-endian at `addr`, which must leave all four
/// bytes inside the memory.
pub fn store_mem_32(core: &mut Core, addr: u32, value: u32)
    requires
        old(core)@.mem.len() == MEMSIZE,
        addr + 3 < MEMSIZE,
    ensures
        final(core)@.mem == old(core)@.mem.update(addr as int, value as u8).update(
            addr + 1,
            (value >> 8u32) as u8,
        ).update(addr + 2, (value >> 16u32) as u8).update(addr + 3, (value >> 24u32) as u8),
        final(core)@.regs == old(core)@.regs,
        final(core)@.csrs == old(core)@.csrs,
        final(core)@.trap == old(core)@.trap,
{
    let addr = addr as usize;
    core.memory[addr] = #[verifier::truncate] (value as u8);
    core.memory[addr + 1] = #[verifier::truncate] ((value >> 8u32) as u8);
    core.memory[addr + 2] = #[verifier::truncate] ((value >> 16u32) as u8);
    core.memory[addr + 3] = #[verifier::truncate] ((value >> 24u32) as u8);
}

/// How one driver step ended: an instruction was executed; the all-zero
/// halt sentinel was fetched; or the step could not proceed, because the
/// program counter left the memory or the fetched word is unrecognized.
#[derive(Clone, Copy, Debug, PartialEq, Eq)]
pub enum StepOutcome {
    Stepped,
    Halted,
    Faulted,
}

/// Fetches the word at the program counter and executes it.
///
/// The all-zero word signals a halt without executing anything.  A program
/// counter pointing outside the memory, or an unrecognized word, is a fault;
/// either way the state is left untouched.
pub fn step(core: &mut Core) -> (r: StepOutcome)
    requires
        old(core).wf(),
    ensures
        final(core).wf(),
        r == StepOutcome::Stepped <==> !stuck(old(core)@),
        final(core)@ == run_step(old(core)@),
        r == StepOutcome::Halted <==> fetch_in_range(old(core)@) && fetched(old(core)@) == 0,
        r == StepOutcome::Faulted <==> !fetch_in_range(old(core)@) || (fetched(old(core)@) != 0
            && !recognized(fetched(old(core)@))),
{
    let pc = core.regs[32];
    if pc < 0 || pc > (MEMSIZE as i32) - 4 {
        return StepOutcome::Faulted;
    }
    let pcu = pc as usize;
    let ins = ((core.memory[pcu + 3] as u32) << 24u32) | ((core.memory[pcu + 2] as u32) << 16u32)
        | ((core.memory[pcu + 1] as u32) << 8u32) | (core.memory[pcu] as u32);
    proof {
        assert(ins == fetched(old(core)@));
    }
    if ins == 0 {
        return StepOutcome::Halted;
    }
    match eval(ins, core) {
        Ok(()) => StepOutcome::Stepped,
        Err(_) => StepOutcome::Faulted,
    }
}

/// Runs the processor until it halts on the zero-word sentinel, faults, or
/// exhausts the step counter; returns the number of instructions executed.
pub fn run(core: &mut Core) -> (n: u64)
    requires
        old(core).wf(),
    ensures
        final(core).wf(),
        final(core)@ == iter_step(old(core)@, n as nat),
        forall|k: int| 0 <= k < n ==> !stuck(#[trigger] iter_step(old(core)@, k as nat)),
        n < u64::MAX ==> stuck(final(core)@),
{
    let mut n: u64 = 0;
    let mut going: bool = true;
    while going && n < u64::MAX
        invariant
            core.wf(),
            n <= u64::MAX,
            core@ == iter_step(old(core)@, n as nat),
            forall|k: int| 0 <= k < n ==> !stuck(#[trigger] iter_step(old(core)@, k as nat)),
            !going ==> stuck(core@),
        decreases (if going {
            1int
        } else {
            0int
        }), u64::MAX - n,
    {
        let r = step(core);
        match r {
            StepOutcome::Stepped => {
                n = n + 1;
            },
            _ => {
                going = false;
            },
        }
    }
    n
}

} // verus!
