use vstd::prelude::*;
use vstd::pervasive::unreached;
use crate::bus::{Bus, BUS_SIZE};
use crate::registers::{
    AFReg, GPReg, FLAG_C, FLAG_H, FLAG_N, FLAG_Z, has_flag, with_flags, lemma_with_flags,
    ne_word, ne_byte0, ne_byte1, word, lo_byte, hi_byte, u16_from_le_bytes, u16_to_le_bytes,
};

verus! {

/// The processor: the register pairs AF, BC, DE and HL, the stack pointer,
/// the program counter, and the memory bus it runs on.
pub struct Cpu {
    pub af: AFReg,
    pub bc: GPReg,
    pub de: GPReg,
    pub hl: GPReg,
    pub sp: u16,
    pub pc: u16,
    pub memory: Bus,
}

/// The registers an instruction can name: the eight byte registers, the
/// register pairs, SP and PC, and the memory bytes that a pair points to
/// (`PAF`, `PBC`, `PDE`, `PHL`).
#[derive(Clone, Copy, Debug)]
pub enum Register {
    A,
    F,
    B,
    C,
    D,
    E,
    H,
    L,
    AF,
    BC,
    DE,
    HL,
    SP,
    PC,
    PAF,
    PBC,
    PDE,
    PHL,
}

/// The conditions of the conditional jumps, calls and returns.
#[derive(Clone, Copy, Debug)]
pub enum Condition {
    NZ,
    Z,
    NC,
    C,
}

impl Register {
    /// A, B, C, D, E, H or L.
    pub open spec fn is_plain_byte(self) -> bool {
        match self {
            Register::A | Register::B | Register::C | Register::D | Register::E | Register::H
            | Register::L => true,
            _ => false,
        }
    }

    /// The registers that `get_regu8` and `set_regu8` accept.
    pub open spec fn is_byte_reg(self) -> bool {
        self.is_plain_byte() || match self {
            Register::F | Register::PHL | Register::PBC | Register::PDE => true,
            _ => false,
        }
    }

    /// The registers that `get_regu16` accepts: a pair, or the memory byte it
    /// points to, which reads as the pair's address.
    pub open spec fn is_word_source(self) -> bool {
        match self {
            Register::AF | Register::PAF | Register::BC | Register::PBC | Register::DE
            | Register::PDE | Register::HL | Register::PHL => true,
            _ => false,
        }
    }

    /// The registers that `set_regu16` accepts.
    pub open spec fn is_word_target(self) -> bool {
        match self {
            Register::AF | Register::BC | Register::DE | Register::HL | Register::SP
            | Register::PC => true,
            _ => false,
        }
    }

    /// AF, BC, DE or HL.
    pub open spec fn is_pair(self) -> bool {
        match self {
            Register::AF | Register::BC | Register::DE | Register::HL => true,
            _ => false,
        }
    }

    /// The operands of `swap`: a plain byte register or the pair HL, which
    /// stands for the byte it points to.
    pub open spec fn is_swap_operand(self) -> bool {
        self.is_plain_byte() || self is HL
    }

    /// The operands of `bit`, `set` and `res`: a plain byte register, or a
    /// register accepted by `get_regu16`, which stands for the byte it points to.
    pub open spec fn is_bit_operand(self) -> bool {
        self.is_plain_byte() || self.is_word_source()
    }
}

/// The state of the processor as a mathematical value: the eight byte
/// registers, SP, PC, and the bytes of memory.
#[verifier::ext_equal]
pub struct CpuState {
    pub a: u8,
    pub f: u8,
    pub b: u8,
    pub c: u8,
    pub d: u8,
    pub e: u8,
    pub h: u8,
    pub l: u8,
    pub sp: u16,
    pub pc: u16,
    pub mem: Seq<u8>,
}

impl View for Cpu {
    type V = CpuState;

    /// The registers byte by byte, SP, PC and the bytes of the bus.
    open spec fn view(&self) -> CpuState {
        CpuState {
            a: self.af.bytes[0],
            f: self.af.bytes[1],
            b: self.bc.0[0],
            c: self.bc.0[1],
            d: self.de.0[0],
            e: self.de.0[1],
            h: self.hl.0[0],
            l: self.hl.0[1],
            sp: self.sp,
            pc: self.pc,
            mem: self.memory@,
        }
    }
}

/// The byte with its two nibbles exchanged.
pub open spec fn nibble_swap(x: u8) -> u8 {
    ((x & 0x0f) << 4u8) | ((x & 0xf0) >> 4u8)
}

/// Where a relative jump by `n` from `pc` lands: the distance `|n|` is added
/// whatever the sign of `n`.
pub open spec fn jump_target(pc: u16, n: i8) -> int {
    if n <= 0 {
        pc - n
    } else {
        pc + n
    }
}

/// A relative jump by `n` from `pc` neither negates `i8::MIN` nor runs past
/// the last address.
pub open spec fn jump_ok(pc: u16, n: i8) -> bool {
    n != i8::MIN && jump_target(pc, n) <= u16::MAX
}

impl CpuState {
    /// AF read as a word.
    pub open spec fn af16(self) -> u16 {
        ne_word(self.a, self.f)
    }

    /// BC read as a word.
    pub open spec fn bc16(self) -> u16 {
        ne_word(self.b, self.c)
    }

    /// DE read as a word.
    pub open spec fn de16(self) -> u16 {
        ne_word(self.d, self.e)
    }

    /// HL read as a word.
    pub open spec fn hl16(self) -> u16 {
        ne_word(self.h, self.l)
    }

    /// The memory byte at `addr`.
    pub open spec fn byte(self, addr: u16) -> u8 {
        self.mem[addr as int]
    }

    /// The state with `val` stored at `addr`.
    pub open spec fn write(self, addr: u16, val: u8) -> CpuState {
        CpuState { mem: self.mem.update(addr as int, val), ..self }
    }

    /// The state with HL holding the word `x`.
    pub open spec fn with_hl16(self, x: u16) -> CpuState {
        CpuState { h: ne_byte0(x), l: ne_byte1(x), ..self }
    }

    /// The state with PC set to `pc`.
    pub open spec fn with_pc(self, pc: u16) -> CpuState {
        CpuState { pc, ..self }
    }

    /// What `get_regu8` reads for `reg`.
    pub open spec fn reg8(self, reg: Register) -> u8 {
        match reg {
            Register::A => self.a,
            Register::F => self.f,
            Register::B => self.b,
            Register::C => self.c,
            Register::D => self.d,
            Register::E => self.e,
            Register::H => self.h,
            Register::L => self.l,
            Register::PHL => self.byte(self.hl16()),
            Register::PBC => self.byte(self.bc16()),
            Register::PDE => self.byte(self.de16()),
            _ => 0,
        }
    }

    /// What `get_regu16` reads for `reg`.
    pub open spec fn reg16(self, reg: Register) -> u16 {
        match reg {
            Register::AF | Register::PAF => self.af16(),
            Register::BC | Register::PBC => self.bc16(),
            Register::DE | Register::PDE => self.de16(),
            Register::HL | Register::PHL => self.hl16(),
            _ => 0,
        }
    }

    /// The two bytes of a pair, in the order the pair stores them.
    pub open spec fn pair_bytes(self, reg: Register) -> (u8, u8) {
        match reg {
            Register::AF => (self.a, self.f),
            Register::BC => (self.b, self.c),
            Register::DE => (self.d, self.e),
            _ => (self.h, self.l),
        }
    }

    /// The byte an operand of `swap`, `bit`, `set` or `res` stands for: a plain
    /// byte register, or else the memory byte that `reg16(reg)` points to.
    pub open spec fn operand(self, reg: Register) -> u8 {
        match reg {
            Register::A => self.a,
            Register::B => self.b,
            Register::C => self.c,
            Register::D => self.d,
            Register::E => self.e,
            Register::H => self.h,
            Register::L => self.l,
            _ => self.byte(self.reg16(reg)),
        }
    }

    /// The state with the operand `reg` replaced by `val`.
    pub open spec fn with_operand(self, reg: Register, val: u8) -> CpuState {
        match reg {
            Register::A => CpuState { a: val, ..self },
            Register::B => CpuState { b: val, ..self },
            Register::C => CpuState { c: val, ..self },
            Register::D => CpuState { d: val, ..self },
            Register::E => CpuState { e: val, ..self },
            Register::H => CpuState { h: val, ..self },
            Register::L => CpuState { l: val, ..self },
            _ => self.write(self.reg16(reg), val),
        }
    }

    /// Whether `cond` holds of the flags.
    pub open spec fn holds(self, cond: Condition) -> bool {
        match cond {
            Condition::NZ => !has_flag(self.f, FLAG_Z),
            Condition::Z => has_flag(self.f, FLAG_Z),
            Condition::NC => !has_flag(self.f, FLAG_C),
            Condition::C => has_flag(self.f, FLAG_C),
        }
    }

    /// A, then the flags of a logical operation with result `res`: Z tells
    /// whether `res` is zero, N, H and C are cleared.
    pub open spec fn logic_result(self, res: u8) -> CpuState {
        CpuState { a: res, f: with_flags(self.f, res == 0, false, false, false), ..self }
    }

    /// The state after `or(n)`.
    pub open spec fn or_spec(self, n: u8) -> CpuState {
        self.logic_result(self.a | n)
    }

    /// The state after `xor(n)`.
    pub open spec fn xor_spec(self, n: u8) -> CpuState {
        self.logic_result(self.a ^ n)
    }

    /// The state after `cpl`: A complemented, N and H set.
    pub open spec fn cpl_spec(self) -> CpuState {
        CpuState {
            a: !self.a,
            f: with_flags(self.f, has_flag(self.f, FLAG_Z), true, true, has_flag(self.f, FLAG_C)),
            ..self
        }
    }

    /// The state after `ccf`: C complemented, N and H cleared.
    pub open spec fn ccf_spec(self) -> CpuState {
        CpuState {
            f: with_flags(self.f, has_flag(self.f, FLAG_Z), false, false, !has_flag(self.f, FLAG_C)),
            ..self
        }
    }

    /// The state after `scf`: C set, N and H cleared.
    pub open spec fn scf_spec(self) -> CpuState {
        CpuState { f: with_flags(self.f, has_flag(self.f, FLAG_Z), false, false, true), ..self }
    }

    /// The state after `swap(reg)`.
    pub open spec fn swap_spec(self, reg: Register) -> CpuState {
        let res = nibble_swap(self.operand(reg));
        CpuState {
            f: with_flags(self.f, res == 0, false, false, false),
            ..self.with_operand(reg, res)
        }
    }

    /// The state after `bit(bit, reg)`.
    pub open spec fn bit_spec(self, bit: u8, reg: Register) -> CpuState {
        CpuState {
            f: with_flags(self.f, (self.operand(reg) >> bit) == 0, false, true, has_flag(self.f, FLAG_C)),
            ..self
        }
    }

    /// The state after `set(bit, reg)`.
    pub open spec fn set_spec(self, bit: u8, reg: Register) -> CpuState {
        self.with_operand(reg, self.operand(reg) | (1u8 << bit))
    }

    /// The state after `res(bit, reg)`.
    pub open spec fn res_spec(self, bit: u8, reg: Register) -> CpuState {
        self.with_operand(reg, self.operand(reg) & !(1u8 << bit))
    }

    /// The state after `push(reg)`.
    pub open spec fn push_spec(self, reg: Register) -> CpuState {
        let (x, y) = self.pair_bytes(reg);
        let sp1 = self.sp.wrapping_sub(1);
        CpuState {
            mem: self.mem.update(self.sp as int, x).update(sp1 as int, y),
            sp: sp1.wrapping_sub(1),
            ..self
        }
    }

    /// The state after `pop(reg)`.
    pub open spec fn pop_spec(self, reg: Register) -> CpuState {
        let (x, y) = self.pair_bytes(reg);
        let sp1 = self.sp.wrapping_add(1);
        CpuState {
            mem: self.mem.update(self.sp as int, x).update(sp1 as int, y),
            sp: sp1.wrapping_add(1),
            ..self
        }
    }

    /// The state after `jpc(cond, val)`.
    pub open spec fn jpc_spec(self, cond: Condition, val: u16) -> CpuState {
        if self.holds(cond) {
            self.with_pc(val)
        } else {
            self
        }
    }

    /// The state after `jr(n)`.
    pub open spec fn jr_spec(self, n: i8) -> CpuState {
        self.with_pc(jump_target(self.pc, n) as u16)
    }

    /// The state after `jrc(cond, n)`.
    pub open spec fn jrc_spec(self, cond: Condition, n: i8) -> CpuState {
        if self.holds(cond) {
            self.jr_spec(n)
        } else {
            self
        }
    }

    /// The state after `call(addr)`.
    pub open spec fn call_spec(self, addr: u16) -> CpuState {
        let b1 = self.byte(self.pc);
        let p1 = self.pc.wrapping_add(self.pc);
        let b2 = self.byte(p1);
        let p2 = p1.wrapping_add(p1);
        CpuState {
            mem: self.mem.update(p2 as int, b1).update(p2 as int, b2),
            sp: self.sp.wrapping_sub(1).wrapping_sub(1),
            pc: addr,
            ..self
        }
    }

    /// The state after `callc(cond, addr)`.
    pub open spec fn callc_spec(self, cond: Condition, addr: u16) -> CpuState {
        if self.holds(cond) {
            self.call_spec(addr)
        } else {
            self
        }
    }

    /// The state after `ret`.
    pub open spec fn ret_spec(self) -> CpuState {
        let b1 = self.byte(self.pc);
        let b2 = self.byte(self.pc.wrapping_add(self.pc));
        CpuState { pc: word(b1, b2), sp: (self.sp + 2) as u16, ..self }
    }

    /// The state after `retc(cond)`.
    pub open spec fn retc_spec(self, cond: Condition) -> CpuState {
        if self.holds(cond) {
            let b1 = self.byte(self.pc);
            let b2 = self.byte(self.pc.wrapping_add(self.pc));
            CpuState { pc: word(b2, b1), sp: self.sp.wrapping_sub(2), ..self }
        } else {
            self
        }
    }
}

/// The opcodes that `clock` carries out; every other opcode stands for an
/// instruction that is not carried out (the fetch ends in a panic).
pub open spec fn is_supported_opcode(op: u8) -> bool {
    ||| op == 0x00 || op == 0x01 || op == 0x02 || op == 0x06 || op == 0x08 || op == 0x0A
    ||| op == 0x0E || op == 0x11 || op == 0x12 || op == 0x16 || op == 0x18 || op == 0x1A
    ||| op == 0x1E || op == 0x20 || op == 0x21 || op == 0x22 || op == 0x26 || op == 0x28
    ||| op == 0x2A || op == 0x2E || op == 0x2F || op == 0x30 || op == 0x31 || op == 0x32
    ||| op == 0x36 || op == 0x37 || op == 0x38 || op == 0x3A || op == 0x3E || op == 0x3F
    ||| 0x40 <= op <= 0x4F
}

impl CpuState {
    /// The opcode at PC.
    pub open spec fn opcode(self) -> u8 {
        self.byte(self.pc)
    }

    /// The state once the opcode has been fetched: PC has moved past it.
    pub open spec fn fetched(self) -> CpuState {
        self.with_pc(self.pc.wrapping_add(1))
    }

    /// The signed operand of a relative jump, read at PC.
    pub open spec fn jump_operand(self) -> i8 {
        self.byte(self.pc) as i8
    }

    /// Whether one `clock` from this state completes: the opcode is carried
    /// out, and a relative jump that is taken neither negates `i8::MIN` nor
    /// runs past the last address.
    pub open spec fn can_step(self) -> bool {
        let op = self.opcode();
        let t = self.fetched();
        let n = t.jump_operand();
        &&& is_supported_opcode(op)
        &&& op == 0x18 ==> jump_ok(t.pc, n)
        &&& op == 0x20 ==> (t.holds(Condition::NZ) ==> jump_ok(t.pc, n))
        &&& op == 0x28 ==> (t.holds(Condition::Z) ==> jump_ok(t.pc, n))
        &&& op == 0x30 ==> (t.holds(Condition::NC) ==> jump_ok(t.pc, n))
        &&& op == 0x38 ==> (t.holds(Condition::C) ==> jump_ok(t.pc, n))
    }

    /// The state after one `clock`: fetch the opcode at PC, move PC past it,
    /// and carry the instruction out.
    pub open spec fn step(self) -> CpuState {
        let op = self.opcode();
        let t = self.fetched();
        let p1 = t.pc;
        let p2 = p1.wrapping_add(1);
        if op == 0x01 || op == 0x11 || op == 0x21 || op == 0x31 {
            // 16-bit immediate loads: the two operand bytes are skipped.
            t.with_pc(p2.wrapping_add(1))
        } else if op == 0x02 {
            t.write(t.bc16(), t.a)
        } else if op == 0x06 || op == 0x0E || op == 0x3E {
            // 8-bit immediate loads into B, C and A: PC is doubled.
            t.with_pc(p1.wrapping_add(p1))
        } else if op == 0x08 {
            t.write(p1, lo_byte(t.sp)).write(p2, hi_byte(t.sp)).with_pc(p2)
        } else if op == 0x12 {
            t.write(t.de16(), t.a)
        } else if op == 0x16 || op == 0x1E || op == 0x26 || op == 0x2E || op == 0x36 {
            // 8-bit immediate loads into D, E, H, L and (HL): the operand is skipped.
            t.with_pc(p2)
        } else if op == 0x18 {
            let j = t.jr_spec(t.jump_operand());
            j.with_pc(j.pc.wrapping_add(1))
        } else if op == 0x20 || op == 0x28 || op == 0x30 || op == 0x38 {
            let cond = if op == 0x20 {
                Condition::NZ
            } else if op == 0x28 {
                Condition::Z
            } else if op == 0x30 {
                Condition::NC
            } else {
                Condition::C
            };
            let j = t.jrc_spec(cond, t.jump_operand());
            j.with_pc(j.pc.wrapping_add(1))
        } else if op == 0x22 {
            t.write(t.hl16(), t.a).with_hl16(t.hl16().wrapping_add(1))
        } else if op == 0x2A {
            t.with_hl16(t.hl16().wrapping_add(1))
        } else if op == 0x2F {
            t.cpl_spec()
        } else if op == 0x32 {
            t.write(t.hl16(), t.a).with_hl16(t.hl16().wrapping_sub(1))
        } else if op == 0x37 {
            t.scf_spec()
        } else if op == 0x3A {
            t.write(t.hl16(), t.byte(t.hl16()).wrapping_sub(1))
        } else if op == 0x3F {
            t.ccf_spec()
        } else {
            // NOP, and the loads of 8-bit registers from registers or memory,
            // which leave the registers as they were.
            t
        }
    }
}

impl Cpu {
    /// A processor with every register zero and a zeroed bus.
    pub fn new() -> (cpu: Self)
        ensures
            cpu@ == (CpuState {
                a: 0, f: 0, b: 0, c: 0, d: 0, e: 0, h: 0, l: 0, sp: 0, pc: 0,
                mem: Seq::new(BUS_SIZE as nat, |i: int| 0u8),
            }),
    {
        let cpu = Cpu {
            af: AFReg::from(0u16),
            bc: GPReg::from(0u16),
            de: GPReg::from(0u16),
            hl: GPReg::from(0u16),
            sp: 0x0000,
            pc: 0x0000,
            memory: Bus::new(),
        };
        proof {
            crate::registers::lemma_bytes_word(0, 0);
            assert(word(0, 0) == 0u16) by (bit_vector);
            cpu.memory.lemma_size();
        }
        cpu
    }

    /// The byte that `reg` names: a byte register, or the memory byte that
    /// HL, BC or DE points to.
    pub fn get_regu8(&self, reg: Register) -> (val: u8)
        requires
            reg.is_byte_reg(),
        ensures
            val == self@.reg8(reg),
    {
        match reg {
            Register::A => self.af.a(),
            Register::F => self.af.f(),
            Register::B => self.bc.0[0],
            Register::C => self.bc.0[1],
            Register::D => self.de.0[0],
            Register::E => self.de.0[1],
            Register::H => self.hl.0[0],
            Register::L => self.hl.0[1],
            Register::PHL | Register::PBC | Register::PDE => self.memory.get_address(
                self.get_regu16(reg),
            ),
            _ => unreached(),
        }
    }

    /// Selects the byte slot that `reg` names and stores `val` into a copy of
    /// it: the processor is left as it was.
    #[allow(unused_assignments)]
    pub fn set_regu8(&mut self, reg: Register, val: u8)
        requires
            reg.is_byte_reg(),
        ensures
            *final(self) == *old(self),
    {
        let mut slot: u8 = match reg {
            Register::A => self.af.into_bytes()[0],
            Register::F => self.af.into_bytes()[1],
            Register::B => self.bc.0[0],
            Register::C => self.bc.0[1],
            Register::D => self.de.0[0],
            Register::E => self.de.0[1],
            Register::H => self.hl.0[0],
            Register::L => self.hl.0[1],
            Register::PHL | Register::PBC | Register::PDE => self.memory.get_address(
                self.get_regu16(reg),
            ),
            _ => unreached(),
        };
        slot = val;
    }

    /// The word that the pair `reg` holds; `PAF`, `PBC`, `PDE` and `PHL`
    /// read as the address their pair holds.
    pub fn get_regu16(&self, reg: Register) -> (val: u16)
        requires
            reg.is_word_source(),
        ensures
            val == self@.reg16(reg),
    {
        match reg {
            Register::AF | Register::PAF => u16::from(self.af),
            Register::BC | Register::PBC => u16::from(self.bc),
            Register::DE | Register::PDE => u16::from(self.de),
            Register::HL | Register::PHL => u16::from(self.hl),
            _ => unreached(),
        }
    }

    /// Selects the word that `reg` names and stores `val` into a copy of it:
    /// the processor is left as it was.
    #[allow(unused_assignments)]
    pub fn set_regu16(&self, reg: Register, val: u16)
        requires
            reg.is_word_target(),
    {
        let mut slot: u16 = match reg {
            Register::AF => u16::from(self.af),
            Register::BC => u16::from(self.bc),
            Register::DE => u16::from(self.de),
            Register::HL => u16::from(self.hl),
            Register::SP => self.sp,
            Register::PC => self.pc,
            _ => unreached(),
        };
        slot = val;
    }

    /// Load of a byte register: goes through `set_regu8`, so the processor is
    /// left as it was.
    pub fn ld_regu8(&mut self, reg: Register, n: u8)
        requires
            reg.is_byte_reg(),
        ensures
            *final(self) == *old(self),
    {
        self.set_regu8(reg, n);
    }

    /// Load of a 16-bit register: goes through `set_regu16`, so the processor
    /// is left as it was.
    pub fn ld_regu16(&mut self, reg: Register, n: u16)
        requires
            reg.is_word_target(),
        ensures
            *final(self) == *old(self),
    {
        self.set_regu16(reg, n);
    }

    /// Writes the first byte of the pair at SP, decrements SP, writes the
    /// second byte there and decrements SP again (all modulo 2^16).
    pub fn push(&mut self, reg: Register)
        requires
            reg.is_pair(),
        ensures
            final(self)@ == old(self)@.push_spec(reg),
    {
        let bytes: [u8; 2] = match reg {
            Register::AF => self.af.into_bytes(),
            Register::BC => self.bc.0,
            Register::DE => self.de.0,
            Register::HL => self.hl.0,
            _ => unreached(),
        };
        self.memory.write_byte(self.sp, bytes[0]);
        self.sp = self.sp.wrapping_sub(1);
        self.memory.write_byte(self.sp, bytes[1]);
        self.sp = self.sp.wrapping_sub(1);
    }

    /// Writes the first byte of the pair at SP, increments SP, writes the
    /// second byte there and increments SP again (all modulo 2^16).
    pub fn pop(&mut self, reg: Register)
        requires
            reg.is_pair(),
        ensures
            final(self)@ == old(self)@.pop_spec(reg),
    {
        let bytes: [u8; 2] = match reg {
            Register::AF => self.af.into_bytes(),
            Register::BC => self.bc.0,
            Register::DE => self.de.0,
            Register::HL => self.hl.0,
            _ => unreached(),
        };
        self.memory.write_byte(self.sp, bytes[0]);
        self.sp = self.sp.wrapping_add(1);
        self.memory.write_byte(self.sp, bytes[1]);
        self.sp = self.sp.wrapping_add(1);
    }

    /// A := A | n; Z tells whether the result is zero, N, H, C are cleared.
    pub fn or(&mut self, n: u8)
        ensures
            final(self)@ == old(self)@.or_spec(n),
    {
        let val = self.af.a();
        self.af.set_a(val | n);
        self.af.reset_flags();
        if self.af.a() == 0 {
            self.af.set_z(true);
        }
        proof {
            let f = old(self).af.bytes[1];
            lemma_with_flags(f, false, false, false, false, true);
        }
    }

    /// A := A ^ n; Z tells whether the result is zero, N, H, C are cleared.
    pub fn xor(&mut self, n: u8)
        ensures
            final(self)@ == old(self)@.xor_spec(n),
    {
        let val = self.af.a();
        self.af.set_a(val ^ n);
        self.af.reset_flags();
        if self.af.a() == 0 {
            self.af.set_z(true);
        }
        proof {
            let f = old(self).af.bytes[1];
            lemma_with_flags(f, false, false, false, false, true);
        }
    }

    /// A := !A; N and H are set, Z and C are unchanged.
    pub fn cpl(&mut self)
        ensures
            final(self)@ == old(self)@.cpl_spec(),
    {
        let ghost f = self.af.bytes[1];
        let ghost (z, n, h, c) = (
            has_flag(f, FLAG_Z),
            has_flag(f, FLAG_N),
            has_flag(f, FLAG_H),
            has_flag(f, FLAG_C),
        );
        proof {
            lemma_with_flags(f, z, n, h, c, true);
            lemma_with_flags(f, z, true, h, c, true);
        }
        let a = self.af.a();
        self.af.set_a(!a);
        self.af.set_n(true);
        self.af.set_h(true);
    }

    /// C := !C; N and H are cleared, Z is unchanged.
    pub fn ccf(&mut self)
        ensures
            final(self)@ == old(self)@.ccf_spec(),
    {
        let ghost f = self.af.bytes[1];
        let ghost (z, n, h, c) = (
            has_flag(f, FLAG_Z),
            has_flag(f, FLAG_N),
            has_flag(f, FLAG_H),
            has_flag(f, FLAG_C),
        );
        proof {
            lemma_with_flags(f, z, n, h, c, false);
            lemma_with_flags(f, z, false, h, c, false);
            lemma_with_flags(f, z, false, false, c, !c);
        }
        self.af.set_n(false);
        self.af.set_h(false);
        let c_now = self.af.c();
        self.af.set_c(!c_now);
    }

    /// C := 1; N and H are cleared, Z is unchanged.
    pub fn scf(&mut self)
        ensures
            final(self)@ == old(self)@.scf_spec(),
    {
        let ghost f = self.af.bytes[1];
        let ghost (z, n, h, c) = (
            has_flag(f, FLAG_Z),
            has_flag(f, FLAG_N),
            has_flag(f, FLAG_H),
            has_flag(f, FLAG_C),
        );
        proof {
            lemma_with_flags(f, z, n, h, c, false);
            lemma_with_flags(f, z, false, h, c, false);
            lemma_with_flags(f, z, false, false, c, true);
        }
        self.af.set_n(false);
        self.af.set_h(false);
        self.af.set_c(true);
    }

    /// Exchanges the two nibbles of the operand (a plain byte register, or
    /// the memory byte HL points to); Z tells whether the result is zero, N,
    /// H and C are cleared.
    pub fn swap(&mut self, reg: Register)
        requires
            reg.is_swap_operand(),
        ensures
            final(self)@ == old(self)@.swap_spec(reg),
    {
        let result: u8 = match reg {
            Register::A => {
                let a = self.af.a();
                let res = ((a & 0x0f) << 4u8) | ((a & 0xf0) >> 4u8);
                self.af.set_a(res);
                res
            },
            Register::B => {
                let b = self.bc.0[0];
                let res = ((b & 0x0f) << 4u8) | ((b & 0xf0) >> 4u8);
                self.bc.0[0] = res;
                res
            },
            Register::C => {
                let c = self.bc.0[1];
                let res = ((c & 0x0f) << 4u8) | ((c & 0xf0) >> 4u8);
                self.bc.0[1] = res;
                res
            },
            Register::D => {
                let d = self.de.0[0];
                let res = ((d & 0x0f) << 4u8) | ((d & 0xf0) >> 4u8);
                self.de.0[0] = res;
                res
            },
            Register::E => {
                let e = self.de.0[1];
                let res = ((e & 0x0f) << 4u8) | ((e & 0xf0) >> 4u8);
                self.de.0[1] = res;
                res
            },
            Register::H => {
                let h = self.hl.0[0];
                let res = ((h & 0x0f) << 4u8) | ((h & 0xf0) >> 4u8);
                self.hl.0[0] = res;
                res
            },
            Register::L => {
                let l = self.hl.0[1];
                let res = ((l & 0x0f) << 4u8) | ((l & 0xf0) >> 4u8);
                self.hl.0[1] = res;
                res
            },
            Register::HL => {
                let b = self.memory.get_address(u16::from(self.hl));
                let res = ((b & 0x0f) << 4u8) | ((b & 0xf0) >> 4u8);
                self.memory.write_byte(u16::from(self.hl), res);
                res
            },
            _ => unreached(),
        };
        proof {
            let f = old(self).af.bytes[1];
            lemma_with_flags(f, false, false, false, false, result == 0);
        }
        self.af.reset_flags();
        self.af.set_z(result == 0);
    }

    /// Z tells whether the operand shifted right by `bit` is zero; N is
    /// cleared, H is set, C is unchanged.  The operand is a plain byte
    /// register or the memory byte that a register accepted by `get_regu16`
    /// points to.
    pub fn bit(&mut self, bit: u8, reg: Register)
        requires
            reg.is_bit_operand(),
            bit <= 7,
        ensures
            final(self)@ == old(self)@.bit_spec(bit, reg),
    {
        let val: u8 = match reg {
            Register::A => self.af.a(),
            Register::B => self.bc.0[0],
            Register::C => self.bc.0[1],
            Register::D => self.de.0[0],
            Register::E => self.de.0[1],
            Register::H => self.hl.0[0],
            Register::L => self.hl.0[1],
            _ => self.memory.get_address(self.get_regu16(reg)),
        };
        let ghost f = self.af.bytes[1];
        let ghost z2 = (val >> bit) == 0;
        let ghost (z, n, h, c) = (
            has_flag(f, FLAG_Z),
            has_flag(f, FLAG_N),
            has_flag(f, FLAG_H),
            has_flag(f, FLAG_C),
        );
        proof {
            lemma_with_flags(f, z, n, h, c, z2);
            lemma_with_flags(f, z2, n, h, c, false);
            lemma_with_flags(f, z2, false, h, c, true);
        }
        self.af.set_z((val >> bit) == 0);
        self.af.set_n(false);
        self.af.set_h(true);
    }

    /// Sets bit `bit` of the operand (a plain byte register, or the memory
    /// byte that a register accepted by `get_regu16` points to).
    pub fn set(&mut self, bit: u8, reg: Register)
        requires
            reg.is_bit_operand(),
            bit <= 7,
        ensures
            final(self)@ == old(self)@.set_spec(bit, reg),
    {
        let val: u8 = 1u8 << bit;
        match reg {
            Register::A => {
                let a = self.af.a();
                self.af.set_a(a | val)
            },
            Register::B => self.bc.0[0] = self.bc.0[0] | val,
            Register::C => self.bc.0[1] = self.bc.0[1] | val,
            Register::D => self.de.0[0] = self.de.0[0] | val,
            Register::E => self.de.0[1] = self.de.0[1] | val,
            Register::H => self.hl.0[0] = self.hl.0[0] | val,
            Register::L => self.hl.0[1] = self.hl.0[1] | val,
            _ => {
                let b = self.memory.get_address(self.get_regu16(reg));
                let addr = self.get_regu16(reg);
                self.memory.write_byte(addr, b | val);
            },
        };
    }

    /// Clears bit `bit` of the operand (a plain byte register, or the memory
    /// byte that a register accepted by `get_regu16` points to).
    pub fn res(&mut self, bit: u8, reg: Register)
        requires
            reg.is_bit_operand(),
            bit <= 7,
        ensures
            final(self)@ == old(self)@.res_spec(bit, reg),
    {
        let val: u8 = !(1u8 << bit);
        match reg {
            Register::A => {
                let a = self.af.a();
                self.af.set_a(a & val)
            },
            Register::B => self.bc.0[0] = self.bc.0[0] & val,
            Register::C => self.bc.0[1] = self.bc.0[1] & val,
            Register::D => self.de.0[0] = self.de.0[0] & val,
            Register::E => self.de.0[1] = self.de.0[1] & val,
            Register::H => self.hl.0[0] = self.hl.0[0] & val,
            Register::L => self.hl.0[1] = self.hl.0[1] & val,
            _ => {
                let b = self.memory.get_address(self.get_regu16(reg));
                let addr = self.get_regu16(reg);
                self.memory.write_byte(addr, b & val);
            },
        };
    }

    /// Whether `cond` holds of the flags.
    fn condition(&self, cond: Condition) -> (r: bool)
        ensures
            r == self@.holds(cond),
    {
        match cond {
            Condition::NZ => self.af.z() == false,
            Condition::Z => self.af.z() == true,
            Condition::NC => self.af.c() == false,
            Condition::C => self.af.c() == true,
        }
    }

    /// Jumps to `val` when `cond` holds.
    pub fn jpc(&mut self, cond: Condition, val: u16)
        ensures
            final(self)@ == old(self)@.jpc_spec(cond, val),
    {
        let cond = self.condition(cond);
        if cond {
            self.pc = val;
        }
    }

    /// Relative jump: adds `|n|` to PC, whatever the sign of `n`.
    pub fn jr(&mut self, n: i8)
        requires
            jump_ok(old(self).pc, n),
        ensures
            final(self)@ == old(self)@.jr_spec(n),
    {
        if n <= 0 {
            self.pc += (0 - n) as u16
        } else {
            self.pc += n as u16
        }
    }

    /// Relative jump by `n`, as `jr` does, when `cond` holds.
    pub fn jrc(&mut self, cond: Condition, n: i8)
        requires
            old(self)@.holds(cond) ==> jump_ok(old(self).pc, n),
        ensures
            final(self)@ == old(self)@.jrc_spec(cond, n),
    {
        let cond = self.condition(cond);
        if cond {
            if n <= 0 {
                self.pc += (0 - n) as u16
            } else {
                self.pc += n as u16
            }
        }
    }

    /// Reads the byte at PC and, after doubling PC, the byte there; doubles
    /// PC again and writes both bytes in turn at that address, decrementing
    /// SP after each; then jumps to `addr`.
    pub fn call(&mut self, addr: u16)
        ensures
            final(self)@ == old(self)@.call_spec(addr),
    {
        let b1 = self.memory.get_address(self.pc);
        self.pc = self.pc.wrapping_add(self.pc);
        let b2 = self.memory.get_address(self.pc);
        self.pc = self.pc.wrapping_add(self.pc);

        self.memory.write_byte(self.pc, b1);
        self.sp = self.sp.wrapping_sub(1);
        self.memory.write_byte(self.pc, b2);
        self.sp = self.sp.wrapping_sub(1);

        self.pc = addr;
    }

    /// `call` when `cond` holds.
    pub fn callc(&mut self, cond: Condition, addr: u16)
        ensures
            final(self)@ == old(self)@.callc_spec(cond, addr),
    {
        let cond = self.condition(cond);
        if cond {
            let b1 = self.memory.get_address(self.pc);
            self.pc = self.pc.wrapping_add(self.pc);
            let b2 = self.memory.get_address(self.pc);
            self.pc = self.pc.wrapping_add(self.pc);

            self.memory.write_byte(self.pc, b1);
            self.sp = self.sp.wrapping_sub(1);
            self.memory.write_byte(self.pc, b2);
            self.sp = self.sp.wrapping_sub(1);

            self.pc = addr;
        }
    }

    /// Reads the byte at PC and, after doubling PC, the byte there; PC becomes
    /// the word with the first byte low and the second high; SP grows by 2.
    pub fn ret(&mut self)
        requires
            old(self).sp + 2 <= u16::MAX,
        ensures
            final(self)@ == old(self)@.ret_spec(),
    {
        let b1 = self.memory.get_address(self.pc);
        self.pc = self.pc.wrapping_add(self.pc);
        let b2 = self.memory.get_address(self.pc);
        self.pc = self.pc.wrapping_add(self.pc);

        self.pc = u16_from_le_bytes([b1, b2]);
        self.sp += 2;
    }

    /// When `cond` holds: reads the byte at PC and, after doubling PC, the
    /// byte there; PC becomes the word with the second byte low and the first
    /// high; SP shrinks by 2 modulo 2^16.
    pub fn retc(&mut self, cond: Condition)
        ensures
            final(self)@ == old(self)@.retc_spec(cond),
    {
        let cond = self.condition(cond);
        if cond {
            let b1 = self.memory.get_address(self.pc);
            self.pc = self.pc.wrapping_add(self.pc);
            let b2 = self.memory.get_address(self.pc);
            self.pc = self.pc.wrapping_add(self.pc);

            self.pc = u16_from_le_bytes([b2, b1]);
            self.sp = self.sp.wrapping_sub(2);
        }
    }

    /// Fetches the opcode at PC, moves PC past it and carries the
    /// instruction out.
    #[verifier::rlimit(50)]
    pub fn clock(&mut self)
        requires
            old(self)@.can_step(),
        ensures
            final(self)@ == old(self)@.step(),
    {
        let opcode = self.memory.get_address(self.pc);
        self.pc = self.pc.wrapping_add(1);
        match opcode {
            0x00 => self.nop(),
            0x01 => {
                let b1 = self.memory.get_address(self.pc);
                self.pc = self.pc.wrapping_add(1);
                let b2 = self.memory.get_address(self.pc);
                self.pc = self.pc.wrapping_add(1);
                self.ld_regu16(Register::BC, u16_from_le_bytes([b1, b2]));
            },
            0x02 => {
                let addr = u16::from(self.bc);
                let a = self.af.a();
                self.memory.write_byte(addr, a)
            },
            0x06 => {
                let b = self.memory.get_address(self.pc);
                self.pc = self.pc.wrapping_add(self.pc);
                self.ld_regu8(Register::B, b);
            },
            0x08 => {
                let bytes = u16_to_le_bytes(self.sp);
                self.memory.write_byte(self.pc, bytes[0]);
                self.pc = self.pc.wrapping_add(1);
                self.memory.write_byte(self.pc, bytes[1]);
            },
            0x0A => {
                let v = self.memory.get_address(self.get_regu16(Register::BC));
                self.ld_regu8(Register::A, v)
            },
            0x0E => {
                let v = self.memory.get_address(self.pc);
                self.ld_regu8(Register::C, v);
                self.pc = self.pc.wrapping_add(self.pc);
            },
            0x11 => {
                let b1 = self.memory.get_address(self.pc);
                self.pc = self.pc.wrapping_add(1);
                let b2 = self.memory.get_address(self.pc);
                self.pc = self.pc.wrapping_add(1);
                self.ld_regu16(Register::DE, u16_from_le_bytes([b1, b2]));
            },
            0x12 => {
                let addr = u16::from(self.de);
                let a = self.af.a();
                self.memory.write_byte(addr, a)
            },
            0x16 => {
                let v = self.memory.get_address(self.pc);
                self.ld_regu8(Register::D, v);
                self.pc = self.pc.wrapping_add(1);
            },
            0x18 => {
                let n = self.memory.get_address(self.pc) as i8;
                self.jr(n);
                self.pc = self.pc.wrapping_add(1);
            },
            0x1A => {
                let v = self.memory.get_address(self.get_regu16(Register::DE));
                self.ld_regu8(Register::A, v)
            },
            0x1E => {
                let v = self.memory.get_address(self.pc);
                self.ld_regu8(Register::E, v);
                self.pc = self.pc.wrapping_add(1);
            },
            0x20 => {
                let n = self.memory.get_address(self.pc) as i8;
                self.jrc(Condition::NZ, n);
                self.pc = self.pc.wrapping_add(1);
            },
            0x21 => {
                let b1 = self.memory.get_address(self.pc);
                self.pc = self.pc.wrapping_add(1);
                let b2 = self.memory.get_address(self.pc);
                self.pc = self.pc.wrapping_add(1);
                self.ld_regu16(Register::HL, u16_from_le_bytes([b1, b2]));
            },
            0x22 => {
                let addr = self.get_regu16(Register::HL);
                let a = self.get_regu8(Register::A);
                self.memory.write_byte(addr, a);
                self.hl = GPReg::from(self.get_regu16(Register::HL).wrapping_add(1));
            },
            0x26 => {
                let v = self.memory.get_address(self.pc);
                self.ld_regu8(Register::H, v);
                self.pc = self.pc.wrapping_add(1);
            },
            0x28 => {
                let n = self.memory.get_address(self.pc) as i8;
                self.jrc(Condition::Z, n);
                self.pc = self.pc.wrapping_add(1);
            },
            0x2A => {
                let v = self.memory.get_address(self.get_regu16(Register::HL));
                self.ld_regu8(Register::A, v);
                self.hl = GPReg::from(self.get_regu16(Register::HL).wrapping_add(1));
            },
            0x2E => {
                let v = self.memory.get_address(self.pc);
                self.ld_regu8(Register::L, v);
                self.pc = self.pc.wrapping_add(1);
            },
            0x2F => self.cpl(),
            0x30 => {
                let n = self.memory.get_address(self.pc) as i8;
                self.jrc(Condition::NC, n);
                self.pc = self.pc.wrapping_add(1);
            },
            0x31 => {
                let b1 = self.memory.get_address(self.pc);
                self.pc = self.pc.wrapping_add(1);
                let b2 = self.memory.get_address(self.pc);
                self.pc = self.pc.wrapping_add(1);
                self.ld_regu16(Register::SP, u16_from_le_bytes([b1, b2]));
            },
            0x32 => {
                let addr = self.get_regu16(Register::HL);
                let a = self.get_regu8(Register::A);
                self.memory.write_byte(addr, a);
                self.hl = GPReg::from(self.get_regu16(Register::HL).wrapping_sub(1));
            },
            0x36 => {
                let v = self.memory.get_address(self.pc);
                self.ld_regu8(Register::PHL, v);
                self.pc = self.pc.wrapping_add(1);
            },
            0x37 => self.scf(),
            0x38 => {
                let n = self.memory.get_address(self.pc) as i8;
                self.jrc(Condition::C, n);
                self.pc = self.pc.wrapping_add(1);
            },
            0x3A => {
                let v = self.get_regu8(Register::PHL);
                self.ld_regu8(Register::A, v);
                let addr = self.get_regu16(Register::PHL);
                let m = self.memory.get_address(self.get_regu16(Register::PHL)).wrapping_sub(1);
                self.memory.write_byte(addr, m);
            },
            0x3E => {
                let b = self.memory.get_address(self.pc);
                self.pc = self.pc.wrapping_add(self.pc);
                self.ld_regu8(Register::A, b);
            },
            0x3F => self.ccf(),
            0x40 => {
                let v = self.get_regu8(Register::B);
                self.ld_regu8(Register::B, v)
            },
            0x41 => {
                let v = self.get_regu8(Register::C);
                self.ld_regu8(Register::B, v)
            },
            0x42 => {
                let v = self.get_regu8(Register::D);
                self.ld_regu8(Register::B, v)
            },
            0x43 => {
                let v = self.get_regu8(Register::E);
                self.ld_regu8(Register::B, v)
            },
            0x44 => {
                let v = self.get_regu8(Register::H);
                self.ld_regu8(Register::B, v)
            },
            0x45 => {
                let v = self.get_regu8(Register::L);
                self.ld_regu8(Register::B, v)
            },
            0x46 => {
                let v = self.memory.get_address(self.get_regu16(Register::HL));
                self.ld_regu8(Register::B, v)
            },
            0x47 => {
                let v = self.get_regu8(Register::A);
                self.ld_regu8(Register::B, v)
            },
            0x48 => {
                let v = self.get_regu8(Register::B);
                self.ld_regu8(Register::C, v)
            },
            0x49 => {
                let v = self.get_regu8(Register::C);
                self.ld_regu8(Register::C, v)
            },
            0x4A => {
                let v = self.get_regu8(Register::D);
                self.ld_regu8(Register::C, v)
            },
            0x4B => {
                let v = self.get_regu8(Register::E);
                self.ld_regu8(Register::C, v)
            },
            0x4C => {
                let v = self.get_regu8(Register::H);
                self.ld_regu8(Register::C, v)
            },
            0x4D => {
                let v = self.get_regu8(Register::L);
                self.ld_regu8(Register::C, v)
            },
            0x4E => {
                let v = self.memory.get_address(self.get_regu16(Register::HL));
                self.ld_regu8(Register::C, v)
            },
            0x4F => {
                let v = self.get_regu8(Register::A);
                self.ld_regu8(Register::C, v)
            },
            _ => unreached(),
        }
    }

    /// Does nothing.
    pub fn nop(&self) {
    }
}

} // verus!
