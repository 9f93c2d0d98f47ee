//! Tests of the step/run driver, the CSR and trap instructions, the
//! unmapped-instruction faults, and the architectural edge cases: the
//! hardwired zero register, shift-amount masking, and address wraparound.

use rv32sim::Core;
use rv32sim::ExecFault;
use rv32sim::MEMSIZE;
use rv32sim::StepOutcome;
use rv32sim::encode;
use rv32sim::eval;
use rv32sim::run;
use rv32sim::step;
use rv32sim::store_mem_32;

fn csr_word(funct3: u32, csr: u32, rs1: u32, rd: u32) -> u32 {
    (csr << 20) | (rs1 << 15) | (funct3 << 12) | (rd << 7) | 0b1110011
}

#[test]
fn write_to_x0_is_discarded() {
    let mut core = Core::new();
    eval(encode::addi(0, 0, 5), &mut core).unwrap();
    assert_eq!(0, core.regs[0]);
    assert_eq!(4, core.regs[32]);

    core.regs[1] = 7;
    eval(encode::add(0, 1, 1), &mut core).unwrap();
    assert_eq!(0, core.regs[0]);
    assert_eq!(8, core.regs[32]);
}

#[test]
fn shift_amount_is_masked_to_five_bits() {
    let mut core = Core::new();
    core.regs[1] = 1;
    core.regs[2] = 35; // 35 mod 32 == 3
    eval(encode::sll(14, 1, 2), &mut core).unwrap();
    assert_eq!(8, core.regs[14]);

    core.regs[2] = -1; // (-1 as unsigned) mod 32 == 31
    eval(encode::sll(14, 1, 2), &mut core).unwrap();
    assert_eq!(i32::MIN, core.regs[14]);

    core.regs[1] = -1;
    core.regs[2] = 63; // 63 mod 32 == 31
    eval(encode::srl(14, 1, 2), &mut core).unwrap();
    assert_eq!(1, core.regs[14]);
}

#[test]
fn shift_by_exactly_31() {
    let mut core = Core::new();
    core.regs[1] = 1;
    eval(encode::slli(14, 1, 31), &mut core).unwrap();
    assert_eq!(i32::MIN, core.regs[14]);

    core.regs[1] = i32::MIN;
    eval(encode::srli(14, 1, 31), &mut core).unwrap();
    assert_eq!(1, core.regs[14]);

    eval(encode::srai(14, 1, 31), &mut core).unwrap();
    assert_eq!(-1, core.regs[14]);
}

#[test]
fn load_address_wraps_modulo_capacity() {
    let mut core = Core::new();
    core.memory[MEMSIZE - 1] = 42;
    eval(encode::lb(14, -1, 0), &mut core).unwrap();
    assert_eq!(42, core.regs[14]);

    // A word read starting at the last two bytes wraps to the start.
    core.memory[MEMSIZE - 2] = 0x78;
    core.memory[MEMSIZE - 1] = 0x56;
    core.memory[0] = 0x34;
    core.memory[1] = 0x12;
    core.regs[1] = (MEMSIZE as i32) - 2;
    eval(encode::lw(14, 0, 1), &mut core).unwrap();
    assert_eq!(0x12345678, core.regs[14]);
}

#[test]
fn store_address_wraps_modulo_capacity() {
    let mut core = Core::new();
    core.regs[2] = 0x55;
    eval(encode::sb(2, -4, 0), &mut core).unwrap();
    assert_eq!(0x55, core.memory[MEMSIZE - 4]);

    core.regs[1] = (MEMSIZE as i32) - 1;
    core.regs[2] = 0x1234;
    eval(encode::sh(2, 0, 1), &mut core).unwrap();
    assert_eq!(0x34, core.memory[MEMSIZE - 1]);
    assert_eq!(0x12, core.memory[0]);
}

#[test]
fn branch_target_wraps_to_zero() {
    let mut core = Core::new();
    core.regs[32] = (MEMSIZE as i32) - 8;
    eval(encode::beq(0, 0, 8), &mut core).unwrap();
    assert_eq!(0, core.regs[32]);
}

#[test]
fn csrrw_writes_and_reads_before_side_effect() {
    let mut core = Core::new();
    core.regs[5] = 77;
    eval(csr_word(0b001, 0x340, 5, 6), &mut core).unwrap();
    assert_eq!(0, core.regs[6]);
    assert_eq!(77, core.csrs[0x340]);
    assert_eq!(4, core.regs[32]);

    core.regs[5] = -1;
    eval(csr_word(0b001, 0x340, 5, 6), &mut core).unwrap();
    assert_eq!(77, core.regs[6]);
    assert_eq!(-1, core.csrs[0x340]);
}

#[test]
fn csrrs_with_zero_source_leaves_csr_unchanged() {
    let mut core = Core::new();
    core.csrs[0x340] = 0x5a5a;
    eval(csr_word(0b010, 0x340, 0, 7), &mut core).unwrap();
    assert_eq!(0x5a5a, core.regs[7]);
    assert_eq!(0x5a5a, core.csrs[0x340]);
}

#[test]
fn csrrc_with_zero_source_leaves_csr_unchanged() {
    let mut core = Core::new();
    core.csrs[0x340] = -77;
    eval(csr_word(0b011, 0x340, 0, 8), &mut core).unwrap();
    assert_eq!(-77, core.regs[8]);
    assert_eq!(-77, core.csrs[0x340]);
}

#[test]
fn csrrs_sets_and_csrrc_clears_bits() {
    let mut core = Core::new();
    core.csrs[0x300] = 0b1100;
    core.regs[5] = 0b0101;
    eval(csr_word(0b010, 0x300, 5, 6), &mut core).unwrap();
    assert_eq!(0b1100, core.regs[6]);
    assert_eq!(0b1101, core.csrs[0x300]);

    eval(csr_word(0b011, 0x300, 5, 7), &mut core).unwrap();
    assert_eq!(0b1101, core.regs[7]);
    assert_eq!(0b1000, core.csrs[0x300]);
}

#[test]
fn csr_immediate_forms_use_the_field_as_literal() {
    let mut core = Core::new();
    // The rs1 field is the 5-bit literal 21, not a register index.
    core.regs[21] = -999;
    eval(csr_word(0b101, 0x341, 21, 6), &mut core).unwrap();
    assert_eq!(21, core.csrs[0x341]);
    assert_eq!(0, core.regs[6]);

    // A zero immediate through the set form changes nothing.
    eval(csr_word(0b110, 0x341, 0, 7), &mut core).unwrap();
    assert_eq!(21, core.regs[7]);
    assert_eq!(21, core.csrs[0x341]);

    // The clear form with immediate 16 clears bit 4.
    eval(csr_word(0b111, 0x341, 16, 8), &mut core).unwrap();
    assert_eq!(21, core.regs[8]);
    assert_eq!(5, core.csrs[0x341]);
}

#[test]
fn trap_primitives_set_the_status_bit_and_fall_through() {
    let mut core = Core::new();
    assert!(!core.trap);
    eval(0x00000073, &mut core).unwrap(); // ECALL
    assert!(core.trap);
    assert_eq!(4, core.regs[32]);

    let mut core = Core::new();
    eval(0x00100073, &mut core).unwrap(); // EBREAK
    assert!(core.trap);

    let mut core = Core::new();
    eval(0x30200073, &mut core).unwrap(); // MRET
    assert!(core.trap);
    assert_eq!(4, core.regs[32]);
}

#[test]
fn unknown_opcode_is_a_fault_and_leaves_state_untouched() {
    let mut core = Core::new();
    core.regs[1] = 9;
    assert_eq!(Err(ExecFault::UnknownOpcode), eval(0x0000007f, &mut core));
    assert_eq!(0, core.regs[32]);
    assert_eq!(9, core.regs[1]);
}

#[test]
fn unknown_funct3_is_a_fault() {
    let mut core = Core::new();
    assert_eq!(Err(ExecFault::UnknownFunct), eval(0x00002063, &mut core)); // branch funct3 010
    assert_eq!(Err(ExecFault::UnknownFunct), eval(0x00003003, &mut core)); // load funct3 011
    assert_eq!(Err(ExecFault::UnknownFunct), eval(0x00007023, &mut core)); // store funct3 111
    assert_eq!(Err(ExecFault::UnknownFunct), eval(0x0000100f, &mut core)); // fence funct3 001
    assert_eq!(Err(ExecFault::UnknownFunct), eval(0x00004073, &mut core)); // system funct3 100
    assert_eq!(Err(ExecFault::UnknownFunct), eval(0x00200073, &mut core)); // system funct3 000, imm 2
    assert_eq!(0, core.regs[32]);
}

#[test]
fn run_executes_until_the_zero_sentinel() {
    let mut core = Core::new();
    store_mem_32(&mut core, 0, encode::addi(14, 0, 8));
    store_mem_32(&mut core, 4, encode::add(15, 14, 14));
    let n = run(&mut core);
    assert_eq!(2, n);
    assert_eq!(8, core.regs[14]);
    assert_eq!(16, core.regs[15]);
    assert_eq!(8, core.regs[32]);
}

#[test]
fn step_reports_each_outcome() {
    let mut core = Core::new();
    store_mem_32(&mut core, 0, encode::addi(14, 0, 1));
    assert_eq!(StepOutcome::Stepped, step(&mut core));
    assert_eq!(1, core.regs[14]);
    // The next word is zero: halt, nothing executed.
    assert_eq!(StepOutcome::Halted, step(&mut core));
    assert_eq!(4, core.regs[32]);

    // An unrecognized word faults and the state is untouched.
    let mut core = Core::new();
    store_mem_32(&mut core, 0, 0x0000007f);
    assert_eq!(StepOutcome::Faulted, step(&mut core));
    assert_eq!(0, core.regs[32]);

    // A program counter pointing outside the memory faults.
    let mut core = Core::new();
    core.regs[32] = (MEMSIZE as i32) - 2;
    assert_eq!(StepOutcome::Faulted, step(&mut core));
    let mut core = Core::new();
    core.regs[32] = -4;
    assert_eq!(StepOutcome::Faulted, step(&mut core));
}

#[test]
fn run_stops_at_a_fault() {
    let mut core = Core::new();
    store_mem_32(&mut core, 0, encode::addi(14, 0, 1));
    store_mem_32(&mut core, 4, 0x0000007f);
    let n = run(&mut core);
    assert_eq!(1, n);
    assert_eq!(4, core.regs[32]);
}
