//! Properties that relate the instructions to one another.

use vstd::prelude::*;
use crate::bus::BUS_SIZE;
use crate::cpu::{CpuState, Condition, Register, nibble_swap};
use crate::registers::{
    has_flag, with_flags, lemma_with_flags, lemma_word_bytes, ne_word, FLAG_C, FLAG_H, FLAG_N, FLAG_Z,
};

verus! {

/// Setting the flags of a flags byte twice keeps only the second setting.
proof fn lemma_with_flags_twice(f: u8, z1: bool, n1: bool, h1: bool, c1: bool, z: bool, n: bool, h: bool, c: bool)
    ensures
        with_flags(with_flags(f, z1, n1, h1, c1), z, n, h, c) == with_flags(f, z, n, h, c),
{
    let g = with_flags(f, z1, n1, h1, c1);
    assert(g & 0x0f == f & 0x0f) by (bit_vector)
        requires
            g == (f & 0x0f) | (if z1 { 0x80u8 } else { 0u8 }) | (if n1 { 0x40u8 } else { 0u8 })
                | (if h1 { 0x20u8 } else { 0u8 }) | (if c1 { 0x10u8 } else { 0u8 });
}

/// Exchanging the nibbles of a byte twice gives the byte back, and the
/// exchange is zero exactly when the byte is.
proof fn lemma_nibble_swap(x: u8)
    ensures
        nibble_swap(nibble_swap(x)) == x,
        (nibble_swap(x) == 0) == (x == 0),
{
    assert(((((((x & 0x0f) << 4u8) | ((x & 0xf0) >> 4u8)) & 0x0f) << 4u8) | (((((x & 0x0f)
        << 4u8) | ((x & 0xf0) >> 4u8)) & 0xf0) >> 4u8)) == x) by (bit_vector);
    assert(((((x & 0x0f) << 4u8) | ((x & 0xf0) >> 4u8)) == 0) == (x == 0)) by (bit_vector);
}

/// Writing HL as a word and reading it back gives the word.
proof fn lemma_hl_round_trip(s: CpuState, x: u16)
    ensures
        s.with_hl16(x).hl16() == x,
{
    lemma_word_bytes(x);
}

/// Swapping the nibbles of the same operand twice restores every register
/// and every memory byte; the flags are those the first swap left.
pub proof fn swap_twice(s: CpuState, reg: Register)
    requires
        reg.is_swap_operand(),
        s.mem.len() == BUS_SIZE,
    ensures
        s.swap_spec(reg).swap_spec(reg) == (CpuState { f: s.swap_spec(reg).f, ..s }),
{
    let v = s.operand(reg);
    lemma_nibble_swap(v);
    lemma_with_flags_twice(s.f, nibble_swap(v) == 0, false, false, false, v == 0, false, false, false);
    let t = s.swap_spec(reg).swap_spec(reg);
    assert(t.mem =~= s.mem);
}

/// Complementing A twice restores A; the flags are those the first
/// complement left.
pub proof fn cpl_twice(s: CpuState)
    ensures
        s.cpl_spec().cpl_spec() == (CpuState { f: s.cpl_spec().f, ..s }),
{
    let f = s.f;
    let (z, c) = (has_flag(f, FLAG_Z), has_flag(f, FLAG_C));
    lemma_with_flags(f, z, true, true, c, true);
    lemma_with_flags_twice(f, z, true, true, c, z, true, true, c);
    let a = s.a;
    assert(!!a == a) by (bit_vector);
}

/// Complementing the carry twice restores it, and clears N and H.
pub proof fn ccf_twice(s: CpuState)
    ensures
        s.ccf_spec().ccf_spec() == (CpuState {
            f: with_flags(s.f, has_flag(s.f, FLAG_Z), false, false, has_flag(s.f, FLAG_C)),
            ..s
        }),
{
    let f = s.f;
    let (z, c) = (has_flag(f, FLAG_Z), has_flag(f, FLAG_C));
    lemma_with_flags(f, z, false, false, !c, true);
    lemma_with_flags_twice(f, z, false, false, !c, z, false, false, c);
}

/// After setting the carry, complementing it leaves it clear.
pub proof fn scf_then_ccf(s: CpuState)
    ensures
        !has_flag(s.scf_spec().ccf_spec().f, FLAG_C),
        has_flag(s.scf_spec().f, FLAG_C),
{
    let f = s.f;
    let z = has_flag(f, FLAG_Z);
    lemma_with_flags(f, z, false, false, true, true);
    lemma_with_flags(f, z, false, false, false, true);
    lemma_with_flags_twice(f, z, false, false, true, z, false, false, false);
}

/// The mask of bit `bit`.
pub open spec fn bit_mask(bit: u8) -> u8 {
    1u8 << bit
}

/// Replacing the operand leaves the address that a memory operand names,
/// and reading the operand back gives the value written.
proof fn lemma_operand_read_after_write(s: CpuState, reg: Register, v: u8)
    requires
        reg.is_bit_operand(),
        s.mem.len() == BUS_SIZE,
    ensures
        s.with_operand(reg, v).operand(reg) == v,
        s.with_operand(reg, v).with_operand(reg, s.operand(reg)) == s,
        s.with_operand(reg, v).reg16(reg) == s.reg16(reg),
        s.with_operand(reg, v).mem.len() == BUS_SIZE,
{
    let t = s.with_operand(reg, v).with_operand(reg, s.operand(reg));
    assert(t.mem =~= s.mem);
}

/// Replacing the operand twice keeps the second value.
proof fn lemma_operand_write_twice(s: CpuState, reg: Register, v: u8, w: u8)
    requires
        reg.is_bit_operand(),
        s.mem.len() == BUS_SIZE,
    ensures
        s.with_operand(reg, v).with_operand(reg, w) == s.with_operand(reg, w),
{
    let t = s.with_operand(reg, v).with_operand(reg, w);
    assert(t.mem =~= s.with_operand(reg, w).mem);
}

/// `set` turns bit `bit` of the operand on and `res` turns it off; both keep
/// the operand's other bits, and `bit` after `set` reads the bit as set (Z
/// clear).
pub proof fn set_res_bit(s: CpuState, bit: u8, reg: Register)
    requires
        reg.is_bit_operand(),
        bit <= 7,
        s.mem.len() == BUS_SIZE,
    ensures
        s.set_spec(bit, reg).operand(reg) & bit_mask(bit) == bit_mask(bit),
        s.res_spec(bit, reg).operand(reg) & bit_mask(bit) == 0,
        s.set_spec(bit, reg).operand(reg) & !bit_mask(bit) == s.operand(reg) & !bit_mask(bit),
        s.res_spec(bit, reg).operand(reg) & !bit_mask(bit) == s.operand(reg) & !bit_mask(bit),
        !has_flag(s.set_spec(bit, reg).bit_spec(bit, reg).f, FLAG_Z),
{
    let v = s.operand(reg);
    lemma_operand_read_after_write(s, reg, v | bit_mask(bit));
    lemma_operand_read_after_write(s, reg, v & !bit_mask(bit));
    assert((v | (1u8 << bit)) & (1u8 << bit) == (1u8 << bit)
        && (v & !(1u8 << bit)) & (1u8 << bit) == 0
        && (v | (1u8 << bit)) & !(1u8 << bit) == v & !(1u8 << bit)
        && (v & !(1u8 << bit)) & !(1u8 << bit) == v & !(1u8 << bit)
        && ((v | (1u8 << bit)) >> bit) != 0) by (bit_vector)
        requires
            bit <= 7;
    let t = s.set_spec(bit, reg);
    lemma_with_flags(t.f, (t.operand(reg) >> bit) == 0, false, true, has_flag(t.f, FLAG_C), true);
}

/// Setting a bit twice is setting it once, clearing it twice is clearing it
/// once, and each of `set` and `res` undoes the other on that bit: the later
/// one decides.
pub proof fn set_res_compose(s: CpuState, bit: u8, reg: Register)
    requires
        reg.is_bit_operand(),
        bit <= 7,
        s.mem.len() == BUS_SIZE,
    ensures
        s.set_spec(bit, reg).set_spec(bit, reg) == s.set_spec(bit, reg),
        s.res_spec(bit, reg).res_spec(bit, reg) == s.res_spec(bit, reg),
        s.set_spec(bit, reg).res_spec(bit, reg) == s.res_spec(bit, reg),
        s.res_spec(bit, reg).set_spec(bit, reg) == s.set_spec(bit, reg),
{
    let v = s.operand(reg);
    let m = bit_mask(bit);
    lemma_operand_read_after_write(s, reg, v | m);
    lemma_operand_read_after_write(s, reg, v & !m);
    lemma_operand_write_twice(s, reg, v | m, (v | m) | m);
    lemma_operand_write_twice(s, reg, v & !m, (v & !m) & !m);
    lemma_operand_write_twice(s, reg, v | m, (v | m) & !m);
    lemma_operand_write_twice(s, reg, v & !m, (v & !m) | m);
    assert((v | m) | m == v | m && (v & !m) & !m == v & !m && (v | m) & !m == v & !m
        && (v & !m) | m == v | m) by (bit_vector);
}

/// XOR of A with itself clears A and sets Z.
pub proof fn xor_self_clears(s: CpuState)
    ensures
        s.xor_spec(s.a).a == 0,
        has_flag(s.xor_spec(s.a).f, FLAG_Z),
{
    let a = s.a;
    assert(a ^ a == 0) by (bit_vector);
    lemma_with_flags(s.f, true, false, false, false, true);
}

/// The conditions come in complementary pairs.
pub proof fn conditions_complement(s: CpuState)
    ensures
        s.holds(Condition::NZ) == !s.holds(Condition::Z),
        s.holds(Condition::NC) == !s.holds(Condition::C),
{
}

/// One `clock` never moves SP and never changes B, C, D or E.
pub proof fn step_keeps_sp_and_pairs(s: CpuState)
    requires
        s.can_step(),
    ensures
        s.step().sp == s.sp,
        s.step().b == s.b,
        s.step().c == s.c,
        s.step().d == s.d,
        s.step().e == s.e,
{
}

/// Storing A through HL with post-increment and then with post-decrement
/// brings HL back to where it was.
pub proof fn hl_increment_then_decrement(s: CpuState)
    requires
        s.opcode() == 0x22,
        s.step().opcode() == 0x32,
    ensures
        s.step().step().hl16() == s.hl16(),
{
    let t = s.fetched();
    let x = t.hl16().wrapping_add(1);
    lemma_hl_round_trip(t.write(t.hl16(), t.a), x);
    let u = s.step().fetched();
    lemma_hl_round_trip(u.write(u.hl16(), u.a), u.hl16().wrapping_sub(1));
}

/// F's low nibble is unused: it is clear in every state `Cpu::new` makes.
pub open spec fn low_nibble_clear(s: CpuState) -> bool {
    s.f & 0x0f == 0
}

/// Setting the four flags of F keeps its low nibble.
proof fn lemma_with_flags_low_nibble(f: u8, z: bool, n: bool, h: bool, c: bool)
    ensures
        with_flags(f, z, n, h, c) & 0x0f == f & 0x0f,
{
    let g = with_flags(f, z, n, h, c);
    assert(g & 0x0f == f & 0x0f) by (bit_vector)
        requires
            g == (f & 0x0f) | (if z { 0x80u8 } else { 0u8 }) | (if n { 0x40u8 } else { 0u8 })
                | (if h { 0x20u8 } else { 0u8 }) | (if c { 0x10u8 } else { 0u8 });
}

/// F's high nibble is its four flags, Z in bit 7, N in bit 6, H in bit 5 and
/// C in bit 4.
pub proof fn flags_nibble(f: u8)
    ensures
        f >> 4u8 == (if has_flag(f, FLAG_Z) { 8u8 } else { 0u8 }) | (if has_flag(f, FLAG_N) {
            4u8
        } else {
            0u8
        }) | (if has_flag(f, FLAG_H) { 2u8 } else { 0u8 }) | (if has_flag(f, FLAG_C) {
            1u8
        } else {
            0u8
        }),
{
    assert(f >> 4u8 == (if f & 0x80 != 0 { 8u8 } else { 0u8 }) | (if f & 0x40 != 0 {
        4u8
    } else {
        0u8
    }) | (if f & 0x20 != 0 { 2u8 } else { 0u8 }) | (if f & 0x10 != 0 { 1u8 } else { 0u8 }))
        by (bit_vector);
}

/// Every instruction keeps F's low nibble, so a state with that nibble clear
/// (as every state `Cpu::new` makes) keeps it clear through any sequence of
/// instructions and `clock` steps.
pub proof fn low_nibble_stays_clear(
    s: CpuState,
    n: u8,
    bit: u8,
    reg: Register,
    cond: Condition,
    val: u16,
    jump: i8,
)
    requires
        low_nibble_clear(s),
    ensures
        low_nibble_clear(s.or_spec(n)),
        low_nibble_clear(s.xor_spec(n)),
        low_nibble_clear(s.cpl_spec()),
        low_nibble_clear(s.ccf_spec()),
        low_nibble_clear(s.scf_spec()),
        low_nibble_clear(s.swap_spec(reg)),
        low_nibble_clear(s.bit_spec(bit, reg)),
        low_nibble_clear(s.set_spec(bit, reg)),
        low_nibble_clear(s.res_spec(bit, reg)),
        low_nibble_clear(s.push_spec(reg)),
        low_nibble_clear(s.pop_spec(reg)),
        low_nibble_clear(s.jpc_spec(cond, val)),
        low_nibble_clear(s.jr_spec(jump)),
        low_nibble_clear(s.jrc_spec(cond, jump)),
        low_nibble_clear(s.call_spec(val)),
        low_nibble_clear(s.callc_spec(cond, val)),
        low_nibble_clear(s.ret_spec()),
        low_nibble_clear(s.retc_spec(cond)),
        s.can_step() ==> low_nibble_clear(s.step()),
{
    let f = s.f;
    let (z, c) = (has_flag(f, FLAG_Z), has_flag(f, FLAG_C));
    lemma_with_flags_low_nibble(f, (s.a | n) == 0, false, false, false);
    lemma_with_flags_low_nibble(f, (s.a ^ n) == 0, false, false, false);
    lemma_with_flags_low_nibble(f, z, true, true, c);
    lemma_with_flags_low_nibble(f, z, false, false, !c);
    lemma_with_flags_low_nibble(f, z, false, false, true);
    lemma_with_flags_low_nibble(f, nibble_swap(s.operand(reg)) == 0, false, false, false);
    lemma_with_flags_low_nibble(f, (s.operand(reg) >> bit) == 0, false, true, c);
    let t = s.fetched();
    assert(t.f == f);
}

/// The byte registers and the pairs agree: each pair reads as the word of
/// its two byte registers (AF of A and F, BC of B and C, DE of D and E, HL of
/// H and L), and `PHL`, `PBC`, `PDE` read the memory byte that the pair
/// addresses.
pub proof fn byte_and_pair_registers_agree(s: CpuState)
    ensures
        s.reg16(Register::AF) == ne_word(s.reg8(Register::A), s.reg8(Register::F)),
        s.reg16(Register::BC) == ne_word(s.reg8(Register::B), s.reg8(Register::C)),
        s.reg16(Register::DE) == ne_word(s.reg8(Register::D), s.reg8(Register::E)),
        s.reg16(Register::HL) == ne_word(s.reg8(Register::H), s.reg8(Register::L)),
        s.reg8(Register::PHL) == s.mem[s.reg16(Register::HL) as int],
        s.reg8(Register::PBC) == s.mem[s.reg16(Register::BC) as int],
        s.reg8(Register::PDE) == s.mem[s.reg16(Register::DE) as int],
        s.reg16(Register::PAF) == s.reg16(Register::AF),
        s.reg16(Register::PBC) == s.reg16(Register::BC),
        s.reg16(Register::PDE) == s.reg16(Register::DE),
        s.reg16(Register::PHL) == s.reg16(Register::HL),
{
}

} // verus!
