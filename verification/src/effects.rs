//! What each instruction does, stated bit by bit and byte by byte over the
//! state before and after it.

use vstd::prelude::*;
use crate::bus::BUS_SIZE;
use crate::cpu::{CpuState, Condition, Register};
use crate::registers::{
    has_flag, with_flags, lemma_with_flags, lemma_word_bytes, word, lo_byte, hi_byte, FLAG_C,
    FLAG_Z,
};

verus! {

/// Whether `cond` holds of the flags byte `f`: Z is bit 7, C is bit 4.
pub open spec fn taken(f: u8, cond: Condition) -> bool {
    match cond {
        Condition::NZ => f & 0x80 == 0,
        Condition::Z => f & 0x80 != 0,
        Condition::NC => f & 0x10 == 0,
        Condition::C => f & 0x10 != 0,
    }
}

/// The distance `|n|`.
pub open spec fn magnitude(n: i8) -> int {
    if n < 0 {
        -n
    } else {
        n as int
    }
}

/// The flags byte that sets Z, N, H and C to the given values has exactly
/// those bits, and keeps the low nibble.
proof fn lemma_flag_bits(f: u8, z: bool, n: bool, h: bool, c: bool)
    ensures
        (with_flags(f, z, n, h, c) & 0x80 != 0) == z,
        (with_flags(f, z, n, h, c) & 0x40 != 0) == n,
        (with_flags(f, z, n, h, c) & 0x20 != 0) == h,
        (with_flags(f, z, n, h, c) & 0x10 != 0) == c,
        with_flags(f, z, n, h, c) & 0x0f == f & 0x0f,
{
    lemma_with_flags(f, z, n, h, c, true);
    let g = with_flags(f, z, n, h, c);
    assert(g & 0x0f == f & 0x0f) by (bit_vector)
        requires
            g == (f & 0x0f) | (if z { 0x80u8 } else { 0u8 }) | (if n { 0x40u8 } else { 0u8 })
                | (if h { 0x20u8 } else { 0u8 }) | (if c { 0x10u8 } else { 0u8 });
}

/// Wrapping arithmetic on words is arithmetic modulo 2^16.
proof fn lemma_wrap16(x: u16, y: u16)
    ensures
        x.wrapping_add(y) as int == (x + y) % 65536,
        x.wrapping_sub(y) as int == (x - y) % 65536,
{
}

/// The word of two bytes is the low byte plus 256 times the high byte, and
/// a word's bytes are its remainder and quotient by 256.
proof fn lemma_word_value(lo: u8, hi: u8, x: u16)
    ensures
        word(lo, hi) as int == lo + 256 * hi,
        lo_byte(x) as int == x % 256,
        hi_byte(x) as int == x / 256,
{
    assert(((lo as u16) | ((hi as u16) << 8u16)) == lo + 256 * hi) by (bit_vector);
    assert((x & 0xffu16) as u8 == x % 256) by (bit_vector);
    assert((x >> 8u16) as u8 == x / 256) by (bit_vector);
}

/// `or(n)`: every bit of the new A is set exactly when it is set in the old A
/// or in `n`; Z tells whether the new A is zero; N, H and C are cleared; the
/// low nibble of F and everything else are unchanged.
pub proof fn or_effect(s: CpuState, n: u8)
    ensures
        forall|i: u8| i < 8 ==> ((#[trigger] (s.or_spec(n).a & (1u8 << i)) != 0) == ((s.a & (1u8
            << i)) != 0 || (n & (1u8 << i)) != 0)),
        (s.or_spec(n).f & 0x80 != 0) == (s.or_spec(n).a == 0),
        s.or_spec(n).f & 0x70 == 0,
        s.or_spec(n).f & 0x0f == s.f & 0x0f,
        (CpuState { a: s.a, f: s.f, ..s.or_spec(n) }) == s,
{
    let t = s.or_spec(n);
    let (a, r) = (s.a, t.a);
    assert(r == a | n);
    assert forall|i: u8| i < 8 implies ((#[trigger] (r & (1u8 << i)) != 0) == ((a & (1u8 << i))
        != 0 || (n & (1u8 << i)) != 0)) by {
        assert(((r & (1u8 << i)) != 0) == ((a & (1u8 << i)) != 0 || (n & (1u8 << i)) != 0))
            by (bit_vector)
            requires
                r == a | n,
                i < 8;
    }
    lemma_flag_bits(s.f, r == 0, false, false, false);
    let g = t.f;
    assert(g & 0x70 == 0) by (bit_vector)
        requires
            g & 0x40 == 0,
            g & 0x20 == 0,
            g & 0x10 == 0;
}

/// `xor(n)`: every bit of the new A is set exactly when the old A and `n`
/// differ in it; Z tells whether the new A is zero; N, H and C are cleared;
/// the low nibble of F and everything else are unchanged.
pub proof fn xor_effect(s: CpuState, n: u8)
    ensures
        forall|i: u8| i < 8 ==> ((#[trigger] (s.xor_spec(n).a & (1u8 << i)) != 0) == ((s.a & (1u8
            << i)) != 0 != ((n & (1u8 << i)) != 0))),
        (s.xor_spec(n).f & 0x80 != 0) == (s.xor_spec(n).a == 0),
        s.xor_spec(n).f & 0x70 == 0,
        s.xor_spec(n).f & 0x0f == s.f & 0x0f,
        (CpuState { a: s.a, f: s.f, ..s.xor_spec(n) }) == s,
{
    let t = s.xor_spec(n);
    let (a, r) = (s.a, t.a);
    assert(r == a ^ n);
    assert forall|i: u8| i < 8 implies ((#[trigger] (r & (1u8 << i)) != 0) == ((a & (1u8 << i))
        != 0 != ((n & (1u8 << i)) != 0))) by {
        assert(((r & (1u8 << i)) != 0) == ((a & (1u8 << i)) != 0 != ((n & (1u8 << i)) != 0)))
            by (bit_vector)
            requires
                r == a ^ n,
                i < 8;
    }
    lemma_flag_bits(s.f, r == 0, false, false, false);
    let g = t.f;
    assert(g & 0x70 == 0) by (bit_vector)
        requires
            g & 0x40 == 0,
            g & 0x20 == 0,
            g & 0x10 == 0;
}

/// `cpl`: the new A has a bit set exactly where the old A has it clear; N and
/// H are set; Z, C, the low nibble of F and everything else are unchanged.
pub proof fn cpl_effect(s: CpuState)
    ensures
        s.cpl_spec().a & s.a == 0,
        s.cpl_spec().a | s.a == 0xff,
        s.cpl_spec().f & 0x40 != 0,
        s.cpl_spec().f & 0x20 != 0,
        s.cpl_spec().f & 0x80 == s.f & 0x80,
        s.cpl_spec().f & 0x10 == s.f & 0x10,
        s.cpl_spec().f & 0x0f == s.f & 0x0f,
        (CpuState { a: s.a, f: s.f, ..s.cpl_spec() }) == s,
{
    let t = s.cpl_spec();
    let (a, r, f, g) = (s.a, t.a, s.f, t.f);
    assert(r == !a);
    assert(r & a == 0 && r | a == 0xff) by (bit_vector)
        requires
            r == !a;
    lemma_flag_bits(f, has_flag(f, FLAG_Z), true, true, has_flag(f, FLAG_C));
    assert(g & 0x80 == f & 0x80 && g & 0x10 == f & 0x10) by (bit_vector)
        requires
            (g & 0x80 != 0) == (f & 0x80 != 0),
            (g & 0x10 != 0) == (f & 0x10 != 0);
}

/// `ccf`: C is flipped; N and H are cleared; Z, the low nibble of F and
/// everything else are unchanged.
pub proof fn ccf_effect(s: CpuState)
    ensures
        (s.ccf_spec().f & 0x10 != 0) == (s.f & 0x10 == 0),
        s.ccf_spec().f & 0x60 == 0,
        s.ccf_spec().f & 0x80 == s.f & 0x80,
        s.ccf_spec().f & 0x0f == s.f & 0x0f,
        (CpuState { f: s.f, ..s.ccf_spec() }) == s,
{
    let (f, g) = (s.f, s.ccf_spec().f);
    lemma_flag_bits(f, has_flag(f, FLAG_Z), false, false, !has_flag(f, FLAG_C));
    assert(g & 0x80 == f & 0x80 && g & 0x60 == 0) by (bit_vector)
        requires
            (g & 0x80 != 0) == (f & 0x80 != 0),
            g & 0x40 == 0,
            g & 0x20 == 0;
}

/// `scf`: C is set; N and H are cleared; Z, the low nibble of F and
/// everything else are unchanged.
pub proof fn scf_effect(s: CpuState)
    ensures
        s.scf_spec().f & 0x10 != 0,
        s.scf_spec().f & 0x60 == 0,
        s.scf_spec().f & 0x80 == s.f & 0x80,
        s.scf_spec().f & 0x0f == s.f & 0x0f,
        (CpuState { f: s.f, ..s.scf_spec() }) == s,
{
    let (f, g) = (s.f, s.scf_spec().f);
    lemma_flag_bits(f, has_flag(f, FLAG_Z), false, false, true);
    assert(g & 0x80 == f & 0x80 && g & 0x60 == 0) by (bit_vector)
        requires
            (g & 0x80 != 0) == (f & 0x80 != 0),
            g & 0x40 == 0,
            g & 0x20 == 0;
}

/// `swap(reg)`: the operand's new low nibble is its old high nibble and its
/// new high nibble is its old low nibble; Z tells whether the new operand is
/// zero; N, H and C are cleared; only that register (or, for HL, only the
/// memory byte HL points to) changes besides F.
pub proof fn swap_effect(s: CpuState, reg: Register)
    requires
        reg.is_swap_operand(),
        s.mem.len() == BUS_SIZE,
    ensures
        ({
            let t = s.swap_spec(reg);
            let v = s.operand(reg);
            let r = t.operand(reg);
            &&& r & 0x0f == v >> 4u8
            &&& r >> 4u8 == v & 0x0f
            &&& (t.f & 0x80 != 0) == (r == 0)
            &&& t.f & 0x70 == 0
            &&& t.f & 0x0f == s.f & 0x0f
            &&& t.a == (if reg is A { r } else { s.a })
            &&& t.b == (if reg is B { r } else { s.b })
            &&& t.c == (if reg is C { r } else { s.c })
            &&& t.d == (if reg is D { r } else { s.d })
            &&& t.e == (if reg is E { r } else { s.e })
            &&& t.h == (if reg is H { r } else { s.h })
            &&& t.l == (if reg is L { r } else { s.l })
            &&& t.sp == s.sp
            &&& t.pc == s.pc
            &&& t.mem == (if reg is HL { s.mem.update(s.hl16() as int, r) } else { s.mem })
        }),
{
    let t = s.swap_spec(reg);
    let v = s.operand(reg);
    let r = t.operand(reg);
    let w = ((v & 0x0f) << 4u8) | ((v & 0xf0) >> 4u8);
    assert(w & 0x0f == v >> 4u8 && w >> 4u8 == v & 0x0f) by (bit_vector)
        requires
            w == ((v & 0x0f) << 4u8) | ((v & 0xf0) >> 4u8);
    assert(r == w);
    lemma_flag_bits(s.f, w == 0, false, false, false);
    let g = t.f;
    assert(g & 0x70 == 0) by (bit_vector)
        requires
            g & 0x40 == 0,
            g & 0x20 == 0,
            g & 0x10 == 0;
}

/// `bit(bit, reg)`: Z tells whether the operand shifted right by `bit` is
/// zero; N is cleared, H is set; C, the low nibble of F and everything else
/// are unchanged.
pub proof fn bit_effect(s: CpuState, bit: u8, reg: Register)
    ensures
        (s.bit_spec(bit, reg).f & 0x80 != 0) == ((s.operand(reg) >> bit) == 0),
        s.bit_spec(bit, reg).f & 0x40 == 0,
        s.bit_spec(bit, reg).f & 0x20 != 0,
        s.bit_spec(bit, reg).f & 0x10 == s.f & 0x10,
        s.bit_spec(bit, reg).f & 0x0f == s.f & 0x0f,
        (CpuState { f: s.f, ..s.bit_spec(bit, reg) }) == s,
{
    let (f, g) = (s.f, s.bit_spec(bit, reg).f);
    lemma_flag_bits(f, (s.operand(reg) >> bit) == 0, false, true, has_flag(f, FLAG_C));
    assert(g & 0x10 == f & 0x10) by (bit_vector)
        requires
            (g & 0x10 != 0) == (f & 0x10 != 0);
}

/// The bytes of a pair in the order it stores them: AF is A then F, BC is B
/// then C, DE is D then E, HL is H then L.
pub open spec fn stored_bytes(s: CpuState, reg: Register) -> (u8, u8) {
    if reg is AF {
        (s.a, s.f)
    } else if reg is BC {
        (s.b, s.c)
    } else if reg is DE {
        (s.d, s.e)
    } else {
        (s.h, s.l)
    }
}

/// `push(reg)`: the pair's first byte is stored at the old SP and its second
/// byte at SP - 1; SP goes down by 2; both modulo 2^16.  No other memory byte
/// and no register besides SP changes.
pub proof fn push_effect(s: CpuState, reg: Register)
    requires
        reg.is_pair(),
        s.mem.len() == BUS_SIZE,
    ensures
        ({
            let t = s.push_spec(reg);
            let below = (s.sp - 1) % 65536;
            &&& t.mem.len() == BUS_SIZE
            &&& t.mem[s.sp as int] == stored_bytes(s, reg).0
            &&& t.mem[below] == stored_bytes(s, reg).1
            &&& forall|i: int| 0 <= i < BUS_SIZE && i != s.sp && i != below ==> #[trigger] t.mem[i] == s.mem[i]
            &&& t.sp as int == (s.sp - 2) % 65536
            &&& (CpuState { sp: s.sp, mem: s.mem, ..t }) == s
        }),
{
    let sp1 = s.sp.wrapping_sub(1);
    lemma_wrap16(s.sp, 1);
    lemma_wrap16(sp1, 1);
}

/// `pop(reg)`: the pair's first byte is stored at the old SP and its second
/// byte at SP + 1; SP goes up by 2; both modulo 2^16.  No other memory byte
/// and no register besides SP changes.
pub proof fn pop_effect(s: CpuState, reg: Register)
    requires
        reg.is_pair(),
        s.mem.len() == BUS_SIZE,
    ensures
        ({
            let t = s.pop_spec(reg);
            let above = (s.sp + 1) % 65536;
            &&& t.mem.len() == BUS_SIZE
            &&& t.mem[s.sp as int] == stored_bytes(s, reg).0
            &&& t.mem[above] == stored_bytes(s, reg).1
            &&& forall|i: int| 0 <= i < BUS_SIZE && i != s.sp && i != above ==> #[trigger] t.mem[i] == s.mem[i]
            &&& t.sp as int == (s.sp + 2) % 65536
            &&& (CpuState { sp: s.sp, mem: s.mem, ..t }) == s
        }),
{
    let sp1 = s.sp.wrapping_add(1);
    lemma_wrap16(s.sp, 1);
    lemma_wrap16(sp1, 1);
}

/// `jpc(cond, val)`: PC becomes `val` when the flag that `cond` tests has the
/// value it asks for, and nothing else changes; otherwise nothing changes.
pub proof fn jpc_effect(s: CpuState, cond: Condition, val: u16)
    ensures
        s.jpc_spec(cond, val) == (if taken(s.f, cond) { CpuState { pc: val, ..s } } else { s }),
{
}

/// `jr(n)`: PC moves forward by `|n|`; nothing else changes.
pub proof fn jr_effect(s: CpuState, n: i8)
    requires
        n != i8::MIN,
        s.pc + magnitude(n) <= u16::MAX,
    ensures
        s.jr_spec(n).pc == s.pc + magnitude(n),
        (CpuState { pc: s.pc, ..s.jr_spec(n) }) == s,
{
}

/// `jrc(cond, n)`: as `jr(n)` when the flag that `cond` tests has the value
/// it asks for; otherwise nothing changes.
pub proof fn jrc_effect(s: CpuState, cond: Condition, n: i8)
    requires
        taken(s.f, cond) ==> n != i8::MIN && s.pc + magnitude(n) <= u16::MAX,
    ensures
        s.jrc_spec(cond, n) == (if taken(s.f, cond) {
            CpuState { pc: (s.pc + magnitude(n)) as u16, ..s }
        } else {
            s
        }),
{
}

/// `call(addr)`: with `p1 = 2 * PC` and `p2 = 2 * p1` (modulo 2^16), the byte
/// at `p1` is stored at `p2`; SP goes down by 2 modulo 2^16; PC becomes
/// `addr`; nothing else changes.
pub proof fn call_effect(s: CpuState, addr: u16)
    requires
        s.mem.len() == BUS_SIZE,
    ensures
        ({
            let t = s.call_spec(addr);
            let p1 = (2 * s.pc) % 65536;
            let p2 = (2 * p1) % 65536;
            &&& t.mem == s.mem.update(p2, s.mem[p1])
            &&& t.sp as int == (s.sp - 2) % 65536
            &&& t.pc == addr
            &&& (CpuState { sp: s.sp, pc: s.pc, mem: s.mem, ..t }) == s
        }),
{
    let p1 = s.pc.wrapping_add(s.pc);
    lemma_wrap16(s.pc, s.pc);
    lemma_wrap16(p1, p1);
    lemma_wrap16(s.sp, 1);
    lemma_wrap16(s.sp.wrapping_sub(1), 1);
    let t = s.call_spec(addr);
    assert(t.mem =~= s.mem.update((2 * p1) % 65536, s.mem[p1 as int]));
}

/// `callc(cond, addr)`: as `call(addr)` when the flag that `cond` tests has
/// the value it asks for; otherwise nothing changes.
pub proof fn callc_effect(s: CpuState, cond: Condition, addr: u16)
    ensures
        s.callc_spec(cond, addr) == (if taken(s.f, cond) { s.call_spec(addr) } else { s }),
{
}

/// `ret`: with `p1 = 2 * PC` (modulo 2^16), PC becomes the byte at PC plus
/// 256 times the byte at `p1`; SP goes up by 2; nothing else changes.
pub proof fn ret_effect(s: CpuState)
    requires
        s.sp + 2 <= u16::MAX,
    ensures
        s.ret_spec().pc as int == s.mem[s.pc as int] + 256 * s.mem[(2 * s.pc) % 65536],
        s.ret_spec().sp == s.sp + 2,
        (CpuState { sp: s.sp, pc: s.pc, ..s.ret_spec() }) == s,
{
    lemma_wrap16(s.pc, s.pc);
    lemma_word_value(s.mem[s.pc as int], s.mem[(2 * s.pc) % 65536], 0);
}

/// `retc(cond)`: when the flag that `cond` tests has the value it asks for,
/// with `p1 = 2 * PC` (modulo 2^16), PC becomes the byte at `p1` plus 256
/// times the byte at PC, and SP goes down by 2 modulo 2^16; otherwise nothing
/// changes.
pub proof fn retc_effect(s: CpuState, cond: Condition)
    ensures
        taken(s.f, cond) ==> s.retc_spec(cond).pc as int == s.mem[(2 * s.pc) % 65536] + 256
            * s.mem[s.pc as int],
        taken(s.f, cond) ==> s.retc_spec(cond).sp as int == (s.sp - 2) % 65536,
        (CpuState { sp: s.sp, pc: s.pc, ..s.retc_spec(cond) }) == s,
        !taken(s.f, cond) ==> s.retc_spec(cond) == s,
{
    lemma_wrap16(s.pc, s.pc);
    lemma_wrap16(s.sp, 2);
    lemma_word_value(s.mem[(2 * s.pc) % 65536], s.mem[s.pc as int], 0);
}

/// One `clock` moves PC past the instruction: by 1 for one-byte
/// instructions, by 2 for those with a one-byte operand (the 8-bit immediate
/// loads into D, E, H, L and (HL)) and for 0x08, by 3 for the 16-bit
/// immediate loads; the 8-bit immediate loads into B, C and A set PC to twice
/// the address after the opcode; a relative jump that is taken moves PC from
/// the operand byte by `|n| + 1`, and one that is not taken skips the operand.
/// All modulo 2^16.
pub proof fn step_pc_effect(s: CpuState)
    requires
        s.can_step(),
    ensures
        ({
            let op = s.mem[s.pc as int];
            let t = s.step();
            let p1 = (s.pc + 1) % 65536;
            let n = s.mem[p1] as i8;
            let jumped = (p1 + magnitude(n) + 1) % 65536;
            let skipped = (s.pc + 2) % 65536;
            &&& (op == 0x00 || op == 0x02 || op == 0x0A || op == 0x12 || op == 0x1A || op == 0x22
                || op == 0x2A || op == 0x2F || op == 0x32 || op == 0x37 || op == 0x3A || op == 0x3F
                || 0x40 <= op <= 0x4F) ==> t.pc == p1
            &&& (op == 0x08 || op == 0x16 || op == 0x1E || op == 0x26 || op == 0x2E || op == 0x36)
                ==> t.pc == skipped
            &&& (op == 0x01 || op == 0x11 || op == 0x21 || op == 0x31) ==> t.pc == (s.pc + 3) % 65536
            &&& (op == 0x06 || op == 0x0E || op == 0x3E) ==> t.pc == (2 * p1) % 65536
            &&& op == 0x18 ==> t.pc == jumped
            &&& op == 0x20 ==> t.pc == (if taken(s.f, Condition::NZ) { jumped } else { skipped })
            &&& op == 0x28 ==> t.pc == (if taken(s.f, Condition::Z) { jumped } else { skipped })
            &&& op == 0x30 ==> t.pc == (if taken(s.f, Condition::NC) { jumped } else { skipped })
            &&& op == 0x38 ==> t.pc == (if taken(s.f, Condition::C) { jumped } else { skipped })
        }),
{
    let p1 = s.pc.wrapping_add(1);
    let p2 = p1.wrapping_add(1);
    lemma_wrap16(s.pc, 1);
    lemma_wrap16(p1, 1);
    lemma_wrap16(p2, 1);
    lemma_wrap16(p1, p1);
    let t = s.fetched();
    let n = t.jump_operand();
    if t.holds(Condition::NZ) || t.holds(Condition::Z) || t.holds(Condition::NC) || t.holds(Condition::C) {
        let j = (p1 + magnitude(n)) as u16;
        lemma_wrap16(j, 1);
    }
}

/// What one `clock` does besides moving PC:
/// - NOP, the loads into registers (immediate, from registers, from memory)
///   and the relative jumps change nothing else;
/// - 0x02 and 0x12 store A at the address in BC or DE;
/// - 0x22 and 0x32 store A at the address in HL and then add 1 to HL or take
///   1 from it; 0x2A adds 1 to HL; 0x3A takes 1 from the byte HL points to;
/// - 0x08 stores the low byte of SP after the opcode and its high byte after
///   that;
/// - 0x2F, 0x37 and 0x3F are `cpl`, `scf` and `ccf`.
pub proof fn step_state_effect(s: CpuState)
    requires
        s.can_step(),
        s.mem.len() == BUS_SIZE,
    ensures
        ({
            let op = s.mem[s.pc as int];
            let t = s.step();
            let u = CpuState { pc: s.pc, ..t };
            let hl = s.hl16() as int;
            let p1 = (s.pc + 1) % 65536;
            let p2 = (s.pc + 2) % 65536;
            &&& (op == 0x00 || op == 0x01 || op == 0x06 || op == 0x0A || op == 0x0E || op == 0x11
                || op == 0x16 || op == 0x18 || op == 0x1A || op == 0x1E || op == 0x20 || op == 0x21
                || op == 0x26 || op == 0x28 || op == 0x2E || op == 0x30 || op == 0x31 || op == 0x36
                || op == 0x38 || op == 0x3E || 0x40 <= op <= 0x4F) ==> u == s
            &&& op == 0x02 ==> u == (CpuState { mem: s.mem.update(s.bc16() as int, s.a), ..s })
            &&& op == 0x12 ==> u == (CpuState { mem: s.mem.update(s.de16() as int, s.a), ..s })
            &&& op == 0x22 ==> (CpuState { h: s.h, l: s.l, ..u }) == (CpuState {
                mem: s.mem.update(hl, s.a),
                ..s
            }) && t.hl16() as int == (hl + 1) % 65536
            &&& op == 0x32 ==> (CpuState { h: s.h, l: s.l, ..u }) == (CpuState {
                mem: s.mem.update(hl, s.a),
                ..s
            }) && t.hl16() as int == (hl - 1) % 65536
            &&& op == 0x2A ==> (CpuState { h: s.h, l: s.l, ..u }) == s && t.hl16() as int == (hl + 1)
                % 65536
            &&& op == 0x3A ==> u == (CpuState {
                mem: s.mem.update(hl, ((s.mem[hl] + 255) % 256) as u8),
                ..s
            })
            &&& op == 0x08 ==> (CpuState { mem: s.mem, ..u }) == s && t.mem.len() == BUS_SIZE
                && t.mem[p1] == s.sp % 256 && t.mem[p2] == s.sp / 256 && forall|i: int|
                0 <= i < BUS_SIZE && i != p1 && i != p2 ==> #[trigger] t.mem[i] == s.mem[i]
            &&& op == 0x2F ==> u == s.cpl_spec()
            &&& op == 0x37 ==> u == s.scf_spec()
            &&& op == 0x3F ==> u == s.ccf_spec()
        }),
{
    let op = s.mem[s.pc as int];
    let f = s.fetched();
    let p1 = s.pc.wrapping_add(1);
    lemma_wrap16(s.pc, 1);
    lemma_wrap16(p1, 1);
    let hl = s.hl16();
    lemma_wrap16(hl, 1);
    if op == 0x22 || op == 0x32 || op == 0x2A {
        lemma_word_bytes(hl.wrapping_add(1));
        lemma_word_bytes(hl.wrapping_sub(1));
    }
    if op == 0x3A {
        let m = s.mem[hl as int];
        assert(m.wrapping_sub(1) as int == (m + 255) % 256);
        assert(f.write(hl, m.wrapping_sub(1)).mem =~= s.mem.update(hl as int, ((m + 255) % 256) as u8));
    }
    if op == 0x08 {
        lemma_word_value(0, 0, s.sp);
    }
}

} // verus!
