//! Encoder tests: exact instruction words, and decode round trips.

use rv32sim::decode::get_b_type;
use rv32sim::decode::get_i_type;
use rv32sim::decode::get_j_type;
use rv32sim::decode::get_r_type;
use rv32sim::decode::get_s_type;
use rv32sim::decode::get_u_type;
use rv32sim::encode;
use rv32sim::sign_extend;

#[test]
fn lui_sp_minus_1() {
    /*
     * 11111111111111111111 00100 0110111
     * => 0b11111111111111111111001000110111 => 0xfffff237
     */
    assert_eq!(encode::lui(4, -1), 0xfffff237);
}

#[test]
fn test_jal_tp_16() {
    assert_eq!(encode::jal(4, 16), 0x0100026f);
}

#[test]
fn jal_tp_minus_4() {
    /***************************************************************
     *   imm19 |    imm10_1 | imm11 |  imm19_12 |    rd |  opcode  *
     *       1   1111111110       1    11111111   00001   1101111  *
     *                                                             *
     *  => 0b11111111110111111111000011101111                      *
     *   = 0xffdff0ef                                              *
     *                                                             *
     **************************************************************/
    assert_eq!(encode::jal(1, -4), 0xffdff0ef);
}

#[test]
fn jalr_a0_ra_4() {
    // imm: ..0100, rs1: 0b00001, f3: 000, rd: 01010, opcode: 1100111
    // => 0b10000001000010101100111 => 0x408567
    assert_eq!(encode::jalr(10, 1, 4), 0x408567);
}

#[test]
fn jalr_a0_ra_minus_4() {
    // imm: ..1100, rs1: 0b00001, f3: 000, rd: 01010, opcode: 1100111
    // => 111111111100 00001 000 01010 1100111
    // => 0b11111111110000001000010101100111 => 0xffc08567
    assert_eq!(encode::jalr(10, 1, -4), 0xffc08567);
}

#[test]
fn test_beq_ra_sp_12() {
    assert_eq!(encode::beq(1, 2, 12), 0x00208663);
}

#[test]
fn beq_x0_x0_minus_4() {
    // -4: 1111111111100
    // 12 10_5    rs2    rs1    f3   4_1   11  opc
    // 1  111111  00000  00000  000  1110  1   1100011
    // => 0b11111110000000000000111011100011 => 0xfe000ee3
    assert_eq!(encode::beq(0, 0, -4), 0xfe000ee3);
}

#[test]
fn round_trip_addi() {
    let it = get_i_type(encode::addi(14, 1, -2048));
    assert_eq!(it.rd, 14);
    assert_eq!(it.rs1, 1);
    assert_eq!(it.funct3, 0b000);
    assert_eq!(sign_extend(it.imm, 12), -2048);
}

#[test]
fn round_trip_load_store() {
    let it = get_i_type(encode::lw(14, 8, 1));
    assert_eq!(it.rd, 14);
    assert_eq!(it.rs1, 1);
    assert_eq!(it.funct3, 0b010);
    assert_eq!(sign_extend(it.imm, 12), 8);

    let st = get_s_type(encode::sw(2, -7, 1));
    assert_eq!(st.rs2, 2);
    assert_eq!(st.rs1, 1);
    assert_eq!(st.funct3, 0b010);
    assert_eq!(sign_extend(st.imm, 12), -7);
}

#[test]
fn round_trip_register_register() {
    let rt = get_r_type(encode::sub(14, 1, 2));
    assert_eq!(rt.rd, 14);
    assert_eq!(rt.rs1, 1);
    assert_eq!(rt.rs2, 2);
    assert_eq!(rt.funct3, 0b000);
    assert_eq!(rt.funct7, 0x20);
}

#[test]
fn round_trip_branch() {
    let bt = get_b_type(encode::bne(1, 2, -4096));
    assert_eq!(bt.rs1, 1);
    assert_eq!(bt.rs2, 2);
    assert_eq!(bt.funct3, 0b001);
    assert_eq!(sign_extend(bt.imm, 13), -4096);
}

#[test]
fn round_trip_jump() {
    let jt = get_j_type(encode::jal(4, -1048576));
    assert_eq!(jt.rd, 4);
    assert_eq!(sign_extend(jt.imm, 21), -1048576);
}

#[test]
fn round_trip_upper() {
    let ut = get_u_type(encode::lui(7, 0xfffff));
    assert_eq!(ut.rd, 7);
    assert_eq!(ut.imm, 0xfffff);
}

#[test]
fn round_trip_shift() {
    let it = get_i_type(encode::slli(14, 1, 31));
    assert_eq!(it.rd, 14);
    assert_eq!(it.rs1, 1);
    assert_eq!(it.imm, 31);

    let it = get_i_type(encode::srai(14, 1, 31));
    assert_eq!(it.imm & 0x1f, 31);
    assert_eq!((it.imm >> 10) & 1, 1);
}
