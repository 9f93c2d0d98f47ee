//! Bit-field extraction and sign extension: the two pure helpers every layer
//! above builds on.

use vstd::prelude::*;
use vstd::arithmetic::power2::pow2;
use vstd::arithmetic::power2::lemma2_to64;

verus! {

/// The unsigned value occupying bits `hi..=lo` of `x`.
pub open spec fn field(hi: u32, lo: u32, x: u32) -> u32 {
    (x >> lo) & (((1u32 << ((hi - lo + 1) as u32)) - 1) as u32)
}

/// The signed two's-complement interpretation of the `bits`-bit value `v`:
/// `v` itself when the sign bit is clear, `v - 2^bits` when it is set.
pub open spec fn signed_val(v: u32, bits: u32) -> int {
    if (v as nat) < pow2((bits - 1) as nat) {
        v as int
    } else {
        v - pow2(bits as nat)
    }
}

/// The signed interpretation of the `bits`-bit value `v`, as a 32-bit
/// machine integer.
pub open spec fn sxt(v: u32, bits: u32) -> i32 {
    signed_val(v, bits) as i32
}

/// For a value within its width, the signed interpretation fits a 32-bit
/// machine integer, so `sxt` carries no truncation.
pub proof fn lemma_signed_val_fits(v: u32, bits: u32)
    requires
        1 <= bits <= 32,
        bits < 32 ==> (v as nat) < pow2(bits as nat),
    ensures
        i32::MIN <= signed_val(v, bits) <= i32::MAX,
        sxt(v, bits) as int == signed_val(v, bits),
{
    vstd::arithmetic::power2::lemma_pow2_adds((bits - 1) as nat, 1);
    lemma2_to64();
    vstd::arithmetic::power2::lemma_pow2_pos((bits - 1) as nat);
    if bits < 32 {
        vstd::arithmetic::power2::lemma_pow2_strictly_increases(bits as nat, 32);
    }
}

/// Returns the unsigned value occupying bits `start..=end` of `ins`
/// (`start` is the high bit).  The range must lie within a 32-bit word and
/// span fewer than 32 bits, so that the mask `1 << width` never shifts by 32.
pub fn take_range(start: u32, end: u32, ins: u32) -> (r: u32)
    requires
        end <= start <= 31,
        start - end < 31,
    ensures
        r == field(start, end, ins),
{
    let width: u32 = start - end + 1;
    proof {
        vstd::bits::lemma_u32_pow2_no_overflow(width as nat);
        vstd::bits::lemma_u32_shl_is_mul(1u32, width);
        vstd::arithmetic::power2::lemma_pow2_pos(width as nat);
    }
    (ins >> end) & ((1u32 << width) - 1)
}

/// Returns the signed two's-complement interpretation of the `bits`-bit
/// value `ins`.  This is the sole place two's-complement conversion occurs;
/// every immediate-consuming opcode routes through it.
pub fn sign_extend(ins: u32, bits: u32) -> (r: i32)
    requires
        1 <= bits <= 32,
        bits < 32 ==> (ins as nat) < pow2(bits as nat),
    ensures
        r as int == signed_val(ins, bits),
        r == sxt(ins, bits),
{
    proof {
        lemma_signed_val_fits(ins, bits);
    }
    if bits == 32 {
        proof {
            lemma2_to64();
            assert((ins as i32) as int == (if ins < 0x8000_0000u32 {
                ins as int
            } else {
                ins as int - 0x1_0000_0000int
            })) by (bit_vector);
        }
        #[verifier::truncate] (ins as i32)
    } else {
        let half: u32 = 1u32 << (bits - 1);
        proof {
            vstd::bits::lemma_u32_pow2_no_overflow((bits - 1) as nat);
            vstd::bits::lemma_u32_pow2_no_overflow(bits as nat);
            vstd::bits::lemma_u32_shl_is_mul(1u32, (bits - 1) as u32);
            vstd::bits::lemma_u32_shl_is_mul(1u32, bits);
            vstd::arithmetic::power2::lemma_pow2_adds((bits - 1) as nat, 1);
            lemma2_to64();
        }
        if ins < half {
            ins as i32
        } else {
            let mag: u32 = ((1u32 << bits) - ins);
            -(mag as i32)
        }
    }
}

/// Sign extension inverts the truncation of a 12-bit immediate.
pub proof fn lemma_sxt12_round_trip(imm: i32)
    requires
        -2048 <= imm < 2048,
    ensures
        sxt((imm as u32) & 0xfff, 12) == imm,
{
    let v = (imm as u32) & 0xfff;
    assert(v < 0x1000 && (imm >= 0 ==> v == imm) && (imm < 0 ==> v as int == imm + 0x1000) && (v
        < 0x800 <==> imm >= 0)) by (bit_vector)
        requires
            -2048 <= imm < 2048 && v == (imm as u32) & 0xfff,
    ;
    lemma2_to64();
    lemma_signed_val_fits(v, 12);
}

/// Sign extension inverts the truncation of an even 13-bit immediate, whose
/// low bit is never encoded.
pub proof fn lemma_sxt13_round_trip(imm: i32)
    requires
        -4096 <= imm < 4096,
        imm % 2 == 0,
    ensures
        sxt((imm as u32) & 0x1ffe, 13) == imm,
{
    let v = (imm as u32) & 0x1ffe;
    assert(v < 0x2000 && (imm >= 0 ==> v == imm) && (imm < 0 ==> v as int == imm + 0x2000) && (v
        < 0x1000 <==> imm >= 0)) by (bit_vector)
        requires
            -4096 <= imm < 4096 && imm % 2 == 0 && v == (imm as u32) & 0x1ffe,
    ;
    lemma2_to64();
    lemma_signed_val_fits(v, 13);
}

/// Sign extension inverts the truncation of an even 21-bit immediate, whose
/// low bit is never encoded.
pub proof fn lemma_sxt21_round_trip(imm: i32)
    requires
        -0x10_0000 <= imm < 0x10_0000,
        imm % 2 == 0,
    ensures
        sxt((imm as u32) & 0x1f_fffe, 21) == imm,
{
    let v = (imm as u32) & 0x1f_fffe;
    assert(v < 0x20_0000 && (imm >= 0 ==> v == imm) && (imm < 0 ==> v as int == imm + 0x20_0000)
        && (v < 0x10_0000 <==> imm >= 0)) by (bit_vector)
        requires
            -0x10_0000 <= imm < 0x10_0000 && imm % 2 == 0 && v == (imm as u32) & 0x1f_fffe,
    ;
    lemma2_to64();
    lemma_signed_val_fits(v, 21);
}

/// A 5-bit shift amount is always a legal 32-bit shift.
pub proof fn lemma_mask5_bound(x: u32)
    by (bit_vector)
    ensures
        x & 0x1f < 32,
{
}

/// Reinterpreting a 32-bit value as unsigned preserves its parity.
pub proof fn lemma_cast_parity(v: i32)
    by (bit_vector)
    ensures
        ((v as u32) as int) % 2 == (v as int) % 2,
{
}

} // verus!
