use gbcpu::bus::Bus;
use gbcpu::cpu::{Condition, Cpu, Register};
use gbcpu::registers::{AFReg, GPReg};

fn le() -> bool {
    u16::from_ne_bytes([1, 0]) == 1
}

fn cpu_with(program: &[u8]) -> Cpu {
    let mut cpu = Cpu::new();
    for (i, b) in program.iter().enumerate() {
        cpu.memory.write_byte(i as u16, *b);
    }
    cpu
}

#[test]
fn test_cpu() {
    let mut cpu = Cpu::new();
    cpu.af.set_z(true);
    assert_eq!(cpu.af.z(), true);
    cpu.af.set_z(false);
    assert_eq!(cpu.af.z(), false);
    cpu.af.set_z(true);
    assert_eq!(cpu.get_regu8(Register::F), 0b10000000);
}

#[test]
fn new_cpu_is_zeroed() {
    let cpu = Cpu::new();
    assert_eq!(cpu.af.into_bytes(), [0, 0]);
    assert_eq!(cpu.bc.0, [0, 0]);
    assert_eq!(cpu.de.0, [0, 0]);
    assert_eq!(cpu.hl.0, [0, 0]);
    assert_eq!(cpu.sp, 0);
    assert_eq!(cpu.pc, 0);
    assert_eq!(cpu.memory.get_address(0), 0);
    assert_eq!(cpu.memory.get_address(0xffff), 0);
}

#[test]
fn bus_read_after_write() {
    let mut bus = Bus::new();
    bus.write_byte(0x1234, 0xab);
    bus.write_byte(0xffff, 0x01);
    assert_eq!(bus.get_address(0x1234), 0xab);
    assert_eq!(bus.get_address(0xffff), 0x01);
    assert_eq!(bus.get_address(0x1235), 0x00);
    bus.write_byte(0x1234, 0xcd);
    assert_eq!(bus.get_address(0x1234), 0xcd);
}

#[test]
fn flags_read_back_and_keep_the_rest() {
    let mut af = AFReg::from_bytes([0x5a, 0x0f]);
    af.set_c(true);
    assert_eq!(af.f(), 0x1f);
    af.set_h(true);
    af.set_n(true);
    af.set_z(true);
    assert_eq!(af.f(), 0xff);
    assert!(af.c() && af.h() && af.n() && af.z());
    af.set_n(false);
    assert_eq!(af.f(), 0xbf);
    assert!(!af.n() && af.z() && af.h() && af.c());
    assert_eq!(af.a(), 0x5a);
    af.reset_flags();
    assert_eq!(af.into_bytes(), [0x5a, 0x0f]);
    af.set_a(0x99);
    assert_eq!(af.into_bytes(), [0x99, 0x0f]);
}

#[test]
fn pairs_convert_to_and_from_words() {
    for x in [0u16, 1, 0x1234, 0xff00, 0xffff] {
        assert_eq!(u16::from(GPReg::from(x)), x);
        assert_eq!(u16::from(AFReg::from(x)), x);
        assert_eq!(GPReg::from(x).0, x.to_ne_bytes());
    }
    let r = GPReg([0x12, 0x34]);
    assert_eq!(GPReg::from(u16::from(r)).0, [0x12, 0x34]);
    if le() {
        assert_eq!(u16::from(r), 0x3412);
        assert_eq!(u16::from(AFReg::from_bytes([0x12, 0x34])), 0x3412);
    }
}

#[test]
fn gpreg_wrapping_arithmetic() {
    let r = GPReg::from(0xffffu16);
    assert_eq!(u16::from(r.wrapping_add(1)), 0);
    assert_eq!(u16::from(r.wrapping_add(1).wrapping_sub(1)), 0xffff);
    assert_eq!(u16::from(GPReg::from(0u16).wrapping_sub(2)), 0xfffe);
    assert_eq!(u16::from(GPReg::from(0x1000u16).wrapping_add(0x0234)), 0x1234);
}

#[test]
fn byte_registers_and_pointers() {
    let mut cpu = Cpu::new();
    cpu.af = AFReg::from_bytes([0x11, 0x80]);
    cpu.bc = GPReg([0x22, 0x33]);
    cpu.de = GPReg([0x44, 0x55]);
    cpu.hl = GPReg([0x66, 0x77]);
    assert_eq!(cpu.get_regu8(Register::A), 0x11);
    assert_eq!(cpu.get_regu8(Register::F), 0x80);
    assert_eq!(cpu.get_regu8(Register::B), 0x22);
    assert_eq!(cpu.get_regu8(Register::C), 0x33);
    assert_eq!(cpu.get_regu8(Register::D), 0x44);
    assert_eq!(cpu.get_regu8(Register::E), 0x55);
    assert_eq!(cpu.get_regu8(Register::H), 0x66);
    assert_eq!(cpu.get_regu8(Register::L), 0x77);
    let hl = cpu.get_regu16(Register::HL);
    assert_eq!(hl, u16::from_ne_bytes([0x66, 0x77]));
    assert_eq!(cpu.get_regu16(Register::PHL), hl);
    assert_eq!(cpu.get_regu16(Register::AF), u16::from_ne_bytes([0x11, 0x80]));
    assert_eq!(cpu.get_regu16(Register::PBC), u16::from_ne_bytes([0x22, 0x33]));
    assert_eq!(cpu.get_regu16(Register::DE), u16::from_ne_bytes([0x44, 0x55]));
    cpu.memory.write_byte(hl, 0xee);
    assert_eq!(cpu.get_regu8(Register::PHL), 0xee);
    cpu.memory.write_byte(cpu.get_regu16(Register::BC), 0xdd);
    assert_eq!(cpu.get_regu8(Register::PBC), 0xdd);
    if le() {
        assert_eq!(hl, 0x7766);
    }
}

#[test]
fn loads_leave_the_processor_unchanged() {
    let mut cpu = Cpu::new();
    cpu.bc = GPReg([1, 2]);
    cpu.af.set_a(3);
    cpu.ld_regu8(Register::B, 0x99);
    cpu.ld_regu8(Register::A, 0x99);
    cpu.set_regu8(Register::PHL, 0x99);
    cpu.ld_regu16(Register::BC, 0x9999);
    cpu.ld_regu16(Register::SP, 0x9999);
    cpu.set_regu16(Register::PC, 0x9999);
    assert_eq!(cpu.bc.0, [1, 2]);
    assert_eq!(cpu.af.a(), 3);
    assert_eq!(cpu.sp, 0);
    assert_eq!(cpu.pc, 0);
    assert_eq!(cpu.memory.get_address(0), 0);
}

#[test]
fn push_writes_below_sp() {
    let mut cpu = Cpu::new();
    cpu.sp = 0xfffe;
    cpu.bc = GPReg([0xab, 0xcd]);
    cpu.push(Register::BC);
    assert_eq!(cpu.memory.get_address(0xfffe), 0xab);
    assert_eq!(cpu.memory.get_address(0xfffd), 0xcd);
    assert_eq!(cpu.sp, 0xfffc);
    cpu.af = AFReg::from_bytes([0x12, 0x34]);
    cpu.sp = 0;
    cpu.push(Register::AF);
    assert_eq!(cpu.memory.get_address(0), 0x12);
    assert_eq!(cpu.memory.get_address(0xffff), 0x34);
    assert_eq!(cpu.sp, 0xfffe);
}

#[test]
fn pop_writes_above_sp() {
    let mut cpu = Cpu::new();
    cpu.sp = 0xfffe;
    cpu.hl = GPReg([0x01, 0x02]);
    cpu.pop(Register::HL);
    assert_eq!(cpu.memory.get_address(0xfffe), 0x01);
    assert_eq!(cpu.memory.get_address(0xffff), 0x02);
    assert_eq!(cpu.sp, 0);
    assert_eq!(cpu.hl.0, [0x01, 0x02]);
}

#[test]
fn or_and_xor_set_a_and_flags() {
    let mut cpu = Cpu::new();
    cpu.af = AFReg::from_bytes([0x05, 0xf3]);
    cpu.or(0x30);
    assert_eq!(cpu.af.into_bytes(), [0x35, 0x03]);
    cpu.af = AFReg::from_bytes([0x00, 0x70]);
    cpu.or(0x00);
    assert_eq!(cpu.af.into_bytes(), [0x00, 0x80]);
    cpu.af = AFReg::from_bytes([0x0f, 0x00]);
    cpu.xor(0xff);
    assert_eq!(cpu.af.into_bytes(), [0xf0, 0x00]);
    cpu.xor(0xf0);
    assert_eq!(cpu.af.into_bytes(), [0x00, 0x80]);
}

#[test]
fn xor_a_with_itself_clears_a() {
    let mut cpu = Cpu::new();
    cpu.af = AFReg::from_bytes([0x5c, 0x70]);
    let a = cpu.af.a();
    cpu.xor(a);
    assert_eq!(cpu.af.a(), 0);
    assert!(cpu.af.z());
    assert!(!cpu.af.n() && !cpu.af.h() && !cpu.af.c());
}

#[test]
fn cpl_ccf_scf() {
    let mut cpu = Cpu::new();
    cpu.af = AFReg::from_bytes([0x35, 0x80]);
    cpu.cpl();
    assert_eq!(cpu.af.into_bytes(), [0xca, 0xe0]);
    cpu.cpl();
    assert_eq!(cpu.af.into_bytes(), [0x35, 0xe0]);
    cpu.ccf();
    assert_eq!(cpu.af.into_bytes(), [0x35, 0x90]);
    cpu.ccf();
    assert_eq!(cpu.af.into_bytes(), [0x35, 0x80]);
    cpu.af.set_n(true);
    cpu.scf();
    assert_eq!(cpu.af.into_bytes(), [0x35, 0x90]);
    cpu.ccf();
    assert!(!cpu.af.c());
}

#[test]
fn swap_exchanges_nibbles() {
    let mut cpu = Cpu::new();
    cpu.af = AFReg::from_bytes([0x12, 0xf0]);
    cpu.swap(Register::A);
    assert_eq!(cpu.af.into_bytes(), [0x21, 0x00]);
    cpu.de = GPReg([0x00, 0xab]);
    cpu.swap(Register::D);
    assert_eq!(cpu.de.0, [0x00, 0xab]);
    assert_eq!(cpu.af.f(), 0x80);
    cpu.swap(Register::E);
    assert_eq!(cpu.de.0, [0x00, 0xba]);
    assert_eq!(cpu.af.f(), 0x00);
    cpu.hl = GPReg::from(0x4000u16);
    cpu.memory.write_byte(0x4000, 0x9c);
    cpu.swap(Register::HL);
    assert_eq!(cpu.memory.get_address(0x4000), 0xc9);
    cpu.swap(Register::HL);
    assert_eq!(cpu.memory.get_address(0x4000), 0x9c);
    cpu.bc = GPReg([0x0f, 0xf0]);
    cpu.swap(Register::B);
    cpu.swap(Register::C);
    cpu.hl = GPReg([0x01, 0x10]);
    cpu.swap(Register::H);
    cpu.swap(Register::L);
    assert_eq!(cpu.bc.0, [0xf0, 0x0f]);
    assert_eq!(cpu.hl.0, [0x10, 0x01]);
}

#[test]
fn bit_tests_the_shifted_operand() {
    let mut cpu = Cpu::new();
    cpu.af = AFReg::from_bytes([0b0000_1000, 0x50]);
    cpu.bit(3, Register::A);
    assert_eq!(cpu.af.f(), 0x30);
    cpu.bit(4, Register::A);
    assert_eq!(cpu.af.f(), 0xb0);
    // Bits above the tested one count too: 0b1000_0000 >> 3 is not zero.
    cpu.bc = GPReg([0b1000_0000, 0]);
    cpu.bit(3, Register::B);
    assert!(!cpu.af.z());
    cpu.hl = GPReg::from(0x0100u16);
    cpu.memory.write_byte(0x0100, 0x01);
    cpu.bit(0, Register::PHL);
    assert!(!cpu.af.z() && cpu.af.h() && !cpu.af.n() && cpu.af.c());
    cpu.bit(1, Register::HL);
    assert!(cpu.af.z());
}

#[test]
fn set_and_res_change_one_bit() {
    let mut cpu = Cpu::new();
    cpu.af.set_a(0b1010_0000);
    cpu.set(0, Register::A);
    assert_eq!(cpu.af.a(), 0b1010_0001);
    cpu.res(7, Register::A);
    assert_eq!(cpu.af.a(), 0b0010_0001);
    cpu.set(7, Register::L);
    assert_eq!(cpu.hl.0, [0, 0x80]);
    cpu.set(7, Register::L);
    assert_eq!(cpu.hl.0, [0, 0x80]);
    cpu.res(7, Register::L);
    assert_eq!(cpu.hl.0, [0, 0]);
    cpu.de = GPReg::from(0x2000u16);
    cpu.memory.write_byte(0x2000, 0xff);
    cpu.res(4, Register::PDE);
    assert_eq!(cpu.memory.get_address(0x2000), 0xef);
    cpu.set(4, Register::DE);
    assert_eq!(cpu.memory.get_address(0x2000), 0xff);
    assert_eq!(cpu.af.f(), 0);
}

#[test]
fn jpc_jumps_only_when_the_condition_holds() {
    let mut cpu = Cpu::new();
    cpu.jpc(Condition::Z, 0x1234);
    assert_eq!(cpu.pc, 0);
    cpu.jpc(Condition::NZ, 0x1234);
    assert_eq!(cpu.pc, 0x1234);
    cpu.af.set_c(true);
    cpu.jpc(Condition::NC, 0x4321);
    assert_eq!(cpu.pc, 0x1234);
    cpu.jpc(Condition::C, 0x4321);
    assert_eq!(cpu.pc, 0x4321);
}

#[test]
fn jr_adds_the_distance() {
    let mut cpu = Cpu::new();
    cpu.pc = 0x100;
    cpu.jr(5);
    assert_eq!(cpu.pc, 0x105);
    cpu.jr(-5);
    assert_eq!(cpu.pc, 0x10a);
    cpu.jr(0);
    assert_eq!(cpu.pc, 0x10a);
    cpu.af.set_z(true);
    cpu.jrc(Condition::NZ, 10);
    assert_eq!(cpu.pc, 0x10a);
    cpu.jrc(Condition::Z, 10);
    assert_eq!(cpu.pc, 0x114);
}

#[test]
fn call_and_callc() {
    let mut cpu = Cpu::new();
    cpu.pc = 0x10;
    cpu.sp = 0x8000;
    cpu.memory.write_byte(0x10, 0xaa);
    cpu.memory.write_byte(0x20, 0xbb);
    cpu.call(0x1234);
    assert_eq!(cpu.memory.get_address(0x40), 0xbb);
    assert_eq!(cpu.sp, 0x7ffe);
    assert_eq!(cpu.pc, 0x1234);
    cpu.af.set_z(true);
    cpu.callc(Condition::NZ, 0x5555);
    assert_eq!(cpu.pc, 0x1234);
    assert_eq!(cpu.sp, 0x7ffe);
    cpu.callc(Condition::Z, 0x5555);
    assert_eq!(cpu.pc, 0x5555);
    assert_eq!(cpu.sp, 0x7ffc);
}

#[test]
fn ret_and_retc() {
    let mut cpu = Cpu::new();
    cpu.pc = 0x10;
    cpu.sp = 0x100;
    cpu.memory.write_byte(0x10, 0x34);
    cpu.memory.write_byte(0x20, 0x12);
    cpu.ret();
    assert_eq!(cpu.pc, 0x1234);
    assert_eq!(cpu.sp, 0x102);
    cpu.pc = 0x10;
    cpu.retc(Condition::C);
    assert_eq!(cpu.pc, 0x10);
    cpu.retc(Condition::NC);
    assert_eq!(cpu.pc, 0x3412);
    assert_eq!(cpu.sp, 0x100);
}

#[test]
fn clock_nop_and_loads() {
    let mut cpu = cpu_with(&[0x00, 0x01, 0x34, 0x12, 0x41, 0x4f]);
    cpu.clock();
    assert_eq!(cpu.pc, 1);
    cpu.clock();
    assert_eq!(cpu.pc, 4);
    assert_eq!(cpu.bc.0, [0, 0]);
    cpu.clock();
    cpu.clock();
    assert_eq!(cpu.pc, 6);
    assert_eq!(cpu.bc.0, [0, 0]);
}

#[test]
fn clock_immediate_loads_move_pc() {
    // 0x06 doubles PC after the fetch; 0x16 skips its operand.
    let mut cpu = cpu_with(&[0x16, 0x77, 0x06, 0x99]);
    cpu.clock();
    assert_eq!(cpu.pc, 2);
    cpu.clock();
    assert_eq!(cpu.pc, 6);
    assert_eq!(cpu.de.0, [0, 0]);
    assert_eq!(cpu.bc.0, [0, 0]);
}

#[test]
fn clock_stores_a_through_pairs() {
    let mut cpu = cpu_with(&[0x02, 0x12, 0x22, 0x32, 0x32]);
    cpu.af.set_a(0x5a);
    cpu.bc = GPReg::from(0x3000u16);
    cpu.de = GPReg::from(0x3001u16);
    cpu.hl = GPReg::from(0x3002u16);
    cpu.clock();
    cpu.clock();
    assert_eq!(cpu.memory.get_address(0x3000), 0x5a);
    assert_eq!(cpu.memory.get_address(0x3001), 0x5a);
    cpu.clock();
    assert_eq!(cpu.memory.get_address(0x3002), 0x5a);
    assert_eq!(u16::from(cpu.hl), 0x3003);
    cpu.clock();
    assert_eq!(cpu.memory.get_address(0x3003), 0x5a);
    assert_eq!(u16::from(cpu.hl), 0x3002);
    cpu.clock();
    assert_eq!(u16::from(cpu.hl), 0x3001);
    assert_eq!(cpu.pc, 5);
}

#[test]
fn clock_stores_sp() {
    let mut cpu = cpu_with(&[0x08]);
    cpu.sp = 0xbeef;
    cpu.clock();
    assert_eq!(cpu.memory.get_address(1), 0xef);
    assert_eq!(cpu.memory.get_address(2), 0xbe);
    assert_eq!(cpu.pc, 2);
    assert_eq!(cpu.sp, 0xbeef);
    assert_eq!(cpu.bc.0, [0, 0]);
    assert_eq!(cpu.de.0, [0, 0]);
}

#[test]
fn clock_flag_instructions() {
    let mut cpu = cpu_with(&[0x2f, 0x37, 0x3f]);
    cpu.af.set_a(0x0f);
    cpu.clock();
    assert_eq!(cpu.af.into_bytes(), [0xf0, 0x60]);
    cpu.clock();
    assert_eq!(cpu.af.into_bytes(), [0xf0, 0x10]);
    cpu.clock();
    assert_eq!(cpu.af.into_bytes(), [0xf0, 0x00]);
    assert_eq!(cpu.pc, 3);
}

#[test]
fn clock_relative_jumps() {
    let mut cpu = cpu_with(&[0x18, 0x03]);
    cpu.clock();
    assert_eq!(cpu.pc, 5);
    let mut cpu = cpu_with(&[0x18, 0xfe]);
    cpu.clock();
    assert_eq!(cpu.pc, 4);
    let mut cpu = cpu_with(&[0x20, 0x04, 0x28, 0x04]);
    cpu.clock();
    assert_eq!(cpu.pc, 6);
    let mut cpu = cpu_with(&[0x28, 0x04, 0x30, 0x01, 0x38, 0x01]);
    cpu.clock();
    assert_eq!(cpu.pc, 2);
    cpu.clock();
    assert_eq!(cpu.pc, 5);
    cpu.pc = 4;
    cpu.clock();
    assert_eq!(cpu.pc, 6);
}

#[test]
fn clock_decrements_memory_at_hl() {
    let mut cpu = cpu_with(&[0x3a, 0x2a]);
    cpu.hl = GPReg::from(0x5000u16);
    cpu.clock();
    assert_eq!(cpu.memory.get_address(0x5000), 0xff);
    assert_eq!(cpu.af.a(), 0);
    cpu.clock();
    assert_eq!(u16::from(cpu.hl), 0x5001);
    assert_eq!(cpu.af.a(), 0);
}

#[test]
fn f_low_nibble_stays_clear() {
    let mut cpu = cpu_with(&[0x2f, 0x37, 0x3f, 0x20, 0x00]);
    assert_eq!(cpu.get_regu8(Register::F) & 0x0f, 0);
    cpu.clock();
    cpu.clock();
    cpu.clock();
    cpu.clock();
    assert_eq!(cpu.get_regu8(Register::F) & 0x0f, 0);
    cpu.xor(0);
    cpu.swap(Register::B);
    cpu.bit(3, Register::C);
    cpu.scf();
    cpu.af.reset_flags();
    cpu.or(1);
    cpu.cpl();
    cpu.ccf();
    assert_eq!(cpu.get_regu8(Register::F) & 0x0f, 0);
    let f = cpu.get_regu8(Register::F);
    let expected = (cpu.af.z() as u8) << 3 | (cpu.af.n() as u8) << 2 | (cpu.af.h() as u8) << 1
        | (cpu.af.c() as u8);
    assert_eq!(f >> 4, expected);
}
