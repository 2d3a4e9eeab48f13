//! Per-operation tests: each handler driven directly, the way a debugger
//! would poke the processor.

use cpu_6502::Bus;
use cpu_6502::Cpu;
use cpu_6502::memory::Memory;
use cpu_6502::nmos6502::Nmos6502;

fn setup() -> (Cpu<Nmos6502>, Memory) {
    (Cpu::new(Nmos6502), Memory::new())
}

#[test]
fn test_and_imm() {
    let (mut cpu, _mem) = setup();

    cpu.reg.update_a(0xFF);
    cpu.and_imm(0);
    assert_eq!(cpu.reg.get_a(), 0x00);
    assert!(cpu.reg.z);
    assert!(!cpu.reg.n);

    cpu.reg.update_a(0xFF);
    cpu.and_imm(0x01);
    assert_eq!(cpu.reg.get_a(), 0x01);
    assert!(!cpu.reg.z);
    assert!(!cpu.reg.n);

    cpu.reg.update_a(0xFF);
    cpu.and_imm(0b1000_0000);
    assert_eq!(cpu.reg.get_a(), 0b1000_0000);
    assert!(!cpu.reg.z);
    assert!(cpu.reg.n);
}

#[test]
fn test_and_adr() {
    let (mut cpu, mut mem) = setup();

    cpu.reg.update_a(0xFF);
    mem.write(0, 0);
    cpu.and_adr(&mem, 0);
    assert_eq!(cpu.reg.get_a(), 0x00);
    assert!(cpu.reg.z);
    assert!(!cpu.reg.n);

    cpu.reg.update_a(0xFF);
    mem.write(0, 0x01);
    cpu.and_adr(&mem, 0);
    assert_eq!(cpu.reg.get_a(), 0x01);
    assert!(!cpu.reg.z);
    assert!(!cpu.reg.n);

    cpu.reg.update_a(0xFF);
    mem.write(0, 0b1000_0000);
    cpu.and_adr(&mem, 0);
    assert_eq!(cpu.reg.get_a(), 0b1000_0000);
    assert!(!cpu.reg.z);
    assert!(cpu.reg.n);
}

#[test]
fn test_asl_imp() {
    let (mut cpu, _mem) = setup();

    cpu.reg.update_a(0b0000_0001);
    cpu.asl_imp();
    assert_eq!(cpu.reg.get_a(), 0b0000_0010);
    assert!(!cpu.reg.c);
    assert!(!cpu.reg.z);
    assert!(!cpu.reg.n);

    cpu.reg.update_a(0b1000_0000);
    cpu.asl_imp();
    assert_eq!(cpu.reg.get_a(), 0b0000_0000);
    assert!(cpu.reg.c);
    assert!(cpu.reg.z);
    assert!(!cpu.reg.n);

    cpu.reg.update_a(0b0100_0000);
    cpu.asl_imp();
    assert_eq!(cpu.reg.get_a(), 0b1000_0000);
    assert!(!cpu.reg.c);
    assert!(!cpu.reg.z);
    assert!(cpu.reg.n);
}

#[test]
fn test_asl_adr() {
    let (mut cpu, mut mem) = setup();

    mem.write(0, 0b0000_0001);
    cpu.asl_adr(&mut mem, 0);
    assert_eq!(mem.read(0), 0b0000_0010);
    assert!(!cpu.reg.c);
    assert!(!cpu.reg.z);
    assert!(!cpu.reg.n);

    mem.write(0, 0b1000_0000);
    cpu.asl_adr(&mut mem, 0);
    assert_eq!(mem.read(0), 0b0000_0000);
    assert!(cpu.reg.c);
    assert!(cpu.reg.z);
    assert!(!cpu.reg.n);

    mem.write(0, 0b0100_0000);
    cpu.asl_adr(&mut mem, 0);
    assert_eq!(mem.read(0), 0b1000_0000);
    assert!(!cpu.reg.c);
    assert!(!cpu.reg.z);
    assert!(cpu.reg.n);
}

#[test]
fn test_bcc() {
    let (mut cpu, _mem) = setup();
    cpu.reg.c = false;
    let before = cpu.pc;
    cpu.bcc(1);
    assert_eq!(cpu.pc, before.wrapping_add(1));
}

#[test]
fn test_bcs() {
    let (mut cpu, _mem) = setup();
    cpu.reg.c = true;
    let before = cpu.pc;
    cpu.bcs(1);
    assert_eq!(cpu.pc, before.wrapping_add(1));
}

#[test]
fn test_beq() {
    let (mut cpu, _mem) = setup();
    cpu.reg.z = true;
    let before = cpu.pc;
    cpu.beq(1);
    assert_eq!(cpu.pc, before.wrapping_add(1));
}

#[test]
fn test_bit() {
    let (mut cpu, mut mem) = setup();

    mem.write(0, 0);
    cpu.bit(&mem, 0);
    assert!(!cpu.reg.v);
    assert!(!cpu.reg.n);

    mem.write(0, 0b1100_0000);
    cpu.bit(&mem, 0);
    assert!(cpu.reg.v);
    assert!(cpu.reg.n);

    cpu.reg.update_a(0);
    mem.write(0, 0xFF);
    cpu.bit(&mem, 0);
    assert!(cpu.reg.z);

    cpu.reg.update_a(0x0F);
    mem.write(0, 0xFF);
    cpu.bit(&mem, 0);
    assert!(!cpu.reg.z);
}

#[test]
fn test_bmi() {
    let (mut cpu, _mem) = setup();
    cpu.reg.n = true;
    let before = cpu.pc;
    cpu.bmi(1);
    assert_eq!(cpu.pc, before.wrapping_add(1));
}

#[test]
fn test_bne() {
    let (mut cpu, _mem) = setup();
    cpu.reg.z = false;
    let before = cpu.pc;
    cpu.bne(1);
    assert_eq!(cpu.pc, before.wrapping_add(1));
}

#[test]
fn test_bpl() {
    let (mut cpu, _mem) = setup();
    cpu.reg.n = false;
    let before = cpu.pc;
    cpu.bpl(1);
    assert_eq!(cpu.pc, before.wrapping_add(1));
}

#[test]
fn test_brk() {
    let (mut cpu, mut mem) = setup();
    cpu.pc = 0xABCD;
    mem.write(0xFFFE, 0xAA);
    mem.write(0xFFFF, 0xBB);
    cpu.brk(&mut mem);
    assert_eq!(cpu.stack_pop(&mem), 0b0011_0000);
    assert_eq!(cpu.stack_pop(&mem), 0xCE);
    assert_eq!(cpu.stack_pop(&mem), 0xAB);
    println!("{:04x}", cpu.pc);
    assert_eq!(cpu.pc, 0xBBAA);
    assert!(cpu.reg.i);
}

#[test]
fn test_bvc() {
    let (mut cpu, _mem) = setup();
    cpu.reg.v = false;
    let before = cpu.pc;
    cpu.bvc(1);
    assert_eq!(cpu.pc, before.wrapping_add(1));
}

#[test]
fn test_bvs() {
    let (mut cpu, _mem) = setup();
    cpu.reg.v = true;
    let before = cpu.pc;
    cpu.bvs(1);
    assert_eq!(cpu.pc, before.wrapping_add(1));
}

#[test]
fn test_clc() {
    let (mut cpu, _mem) = setup();
    cpu.reg.c = true;
    cpu.clc();
    assert!(!cpu.reg.c);
}

#[test]
fn test_cld() {
    let (mut cpu, _mem) = setup();
    cpu.reg.d = true;
    cpu.cld();
    assert!(!cpu.reg.d);
}

#[test]
fn test_cli() {
    let (mut cpu, _mem) = setup();
    cpu.reg.i = true;
    cpu.cli();
    assert!(!cpu.reg.i);
}

#[test]
fn test_clv() {
    let (mut cpu, _mem) = setup();
    cpu.reg.v = true;
    cpu.clv();
    assert!(!cpu.reg.v);
}

#[test]
fn test_cmp_imm() {
    let (mut cpu, _mem) = setup();

    cpu.reg.update_a(0);
    cpu.cmp_imm(1);
    assert!(!cpu.reg.c);
    assert!(!cpu.reg.z);
    assert!(cpu.reg.n);

    cpu.reg.update_a(1);
    cpu.cmp_imm(1);
    assert!(cpu.reg.c);
    assert!(cpu.reg.z);
    assert!(!cpu.reg.n);

    cpu.reg.update_a(2);
    cpu.cmp_imm(1);
    assert!(cpu.reg.c);
    assert!(!cpu.reg.z);
    assert!(!cpu.reg.n);
}

#[test]
fn test_cmp_adr() {
    let (mut cpu, mut mem) = setup();
    mem.write(0xABCD, 1);

    cpu.reg.update_a(0);
    cpu.cmp_adr(&mem, 0xABCD);
    assert!(!cpu.reg.c);
    assert!(!cpu.reg.z);
    assert!(cpu.reg.n);

    cpu.reg.update_a(1);
    cpu.cmp_adr(&mem, 0xABCD);
    assert!(cpu.reg.c);
    assert!(cpu.reg.z);
    assert!(!cpu.reg.n);

    cpu.reg.update_a(2);
    cpu.cmp_adr(&mem, 0xABCD);
    assert!(cpu.reg.c);
    assert!(!cpu.reg.z);
    assert!(!cpu.reg.n);
}

#[test]
fn test_cpx_imm() {
    let (mut cpu, _mem) = setup();

    cpu.reg.update_x(0);
    cpu.cpx_imm(1);
    assert!(!cpu.reg.c);
    assert!(!cpu.reg.z);
    assert!(cpu.reg.n);

    cpu.reg.update_x(1);
    cpu.cpx_imm(1);
    assert!(cpu.reg.c);
    assert!(cpu.reg.z);
    assert!(!cpu.reg.n);

    cpu.reg.update_x(2);
    cpu.cpx_imm(1);
    assert!(cpu.reg.c);
    assert!(!cpu.reg.z);
    assert!(!cpu.reg.n);
}

#[test]
fn test_cpx_adr() {
    let (mut cpu, mut mem) = setup();
    mem.write(0xABCD, 1);

    cpu.reg.update_x(0);
    cpu.cpx_adr(&mem, 0xABCD);
    assert!(!cpu.reg.c);
    assert!(!cpu.reg.z);
    assert!(cpu.reg.n);

    cpu.reg.update_x(1);
    cpu.cpx_adr(&mem, 0xABCD);
    assert!(cpu.reg.c);
    assert!(cpu.reg.z);
    assert!(!cpu.reg.n);

    cpu.reg.update_x(2);
    cpu.cpx_adr(&mem, 0xABCD);
    assert!(cpu.reg.c);
    assert!(!cpu.reg.z);
    assert!(!cpu.reg.n);
}

#[test]
fn test_cpy_imm() {
    let (mut cpu, _mem) = setup();

    cpu.reg.update_y(0);
    cpu.cpy_imm(1);
    assert!(!cpu.reg.c);
    assert!(!cpu.reg.z);
    assert!(cpu.reg.n);

    cpu.reg.update_y(1);
    cpu.cpy_imm(1);
    assert!(cpu.reg.c);
    assert!(cpu.reg.z);
    assert!(!cpu.reg.n);

    cpu.reg.update_y(2);
    cpu.cpy_imm(1);
    assert!(cpu.reg.c);
    assert!(!cpu.reg.z);
    assert!(!cpu.reg.n);
}

#[test]
fn test_cpy_adr() {
    let (mut cpu, mut mem) = setup();
    mem.write(0xABCD, 1);

    cpu.reg.update_y(0);
    cpu.cpy_adr(&mem, 0xABCD);
    assert!(!cpu.reg.c);
    assert!(!cpu.reg.z);
    assert!(cpu.reg.n);

    cpu.reg.update_y(1);
    cpu.cpy_adr(&mem, 0xABCD);
    assert!(cpu.reg.c);
    assert!(cpu.reg.z);
    assert!(!cpu.reg.n);

    cpu.reg.update_y(2);
    cpu.cpy_adr(&mem, 0xABCD);
    assert!(cpu.reg.c);
    assert!(!cpu.reg.z);
    assert!(!cpu.reg.n);
}

#[test]
fn test_dec() {
    let (mut cpu, mut mem) = setup();
    let before = mem.read(0);
    cpu.dec(&mut mem, 0);
    assert_eq!(mem.read(0), before.wrapping_sub(1));
}

#[test]
fn test_dex() {
    let (mut cpu, _mem) = setup();
    let before = cpu.reg.get_x();
    cpu.dex();
    assert_eq!(cpu.reg.get_x(), before.wrapping_sub(1));
}

#[test]
fn test_dey() {
    let (mut cpu, _mem) = setup();
    let before = cpu.reg.get_y();
    cpu.dey();
    assert_eq!(cpu.reg.get_y(), before.wrapping_sub(1));
}

#[test]
fn test_eor_imm() {
    let (mut cpu, _mem) = setup();

    cpu.reg.update_a(0x00);
    cpu.eor_imm(0x00);
    assert_eq!(cpu.reg.get_a(), 0x00);
    assert!(cpu.reg.z);
    assert!(!cpu.reg.n);

    cpu.reg.update_a(0x00);
    cpu.eor_imm(0x01);
    assert_eq!(cpu.reg.get_a(), 0x01);
    assert!(!cpu.reg.z);
    assert!(!cpu.reg.z);

    cpu.reg.update_a(0x01);
    cpu.eor_imm(0x01);
    assert_eq!(cpu.reg.get_a(), 0x00);
    assert!(cpu.reg.z);
    assert!(!cpu.reg.n);

    cpu.reg.update_a(0x00);
    cpu.eor_imm(0b1000_0000);
    assert_eq!(cpu.reg.get_a(), 0b1000_0000);
    assert!(!cpu.reg.z);
    assert!(cpu.reg.n);
}

#[test]
fn test_eor_adr() {
    let (mut cpu, mut mem) = setup();

    mem.write(0, 0x00);
    cpu.reg.update_a(0x00);
    cpu.eor_adr(&mem, 0);
    assert_eq!(cpu.reg.get_a(), 0x00);
    assert!(cpu.reg.z);
    assert!(!cpu.reg.n);

    mem.write(0, 0x01);
    cpu.reg.update_a(0x00);
    cpu.eor_adr(&mem, 0);
    assert_eq!(cpu.reg.get_a(), 0x01);
    assert!(!cpu.reg.z);
    assert!(!cpu.reg.z);

    mem.write(0, 0x01);
    cpu.reg.update_a(0x01);
    cpu.eor_adr(&mem, 0);
    assert_eq!(cpu.reg.get_a(), 0x00);
    assert!(cpu.reg.z);
    assert!(!cpu.reg.n);

    mem.write(0, 0b1000_0000);
    cpu.reg.update_a(0x00);
    cpu.eor_adr(&mem, 0);
    assert_eq!(cpu.reg.get_a(), 0b1000_0000);
    assert!(!cpu.reg.z);
    assert!(cpu.reg.n);
}

#[test]
fn test_inc() {
    let (mut cpu, mut mem) = setup();
    let before = mem.read(0);
    cpu.inc(&mut mem, 0);
    assert_eq!(mem.read(0), before.wrapping_add(1));
}

#[test]
fn test_inx() {
    let (mut cpu, _mem) = setup();
    let before = cpu.reg.get_x();
    cpu.inx();
    assert_eq!(cpu.reg.get_x(), before.wrapping_add(1));
}

#[test]
fn test_iny() {
    let (mut cpu, _mem) = setup();
    let before = cpu.reg.get_y();
    cpu.iny();
    assert_eq!(cpu.reg.get_y(), before.wrapping_add(1));
}

#[test]
fn test_jmp() {
    let (mut cpu, _mem) = setup();
    cpu.jmp(0xABCD);
    assert_eq!(cpu.pc, 0xABCD);
}

#[test]
fn test_jsr() {
    let (mut cpu, mut mem) = setup();
    cpu.pc = 0xABCD;
    cpu.jsr(&mut mem, 0x1234);
    assert_eq!(cpu.stack_pop(&mem), 0xCC);
    assert_eq!(cpu.stack_pop(&mem), 0xAB);
    assert_eq!(cpu.pc, 0x1234);
}

#[test]
fn test_lda_imm() {
    let (mut cpu, _mem) = setup();

    cpu.lda_imm(-1 as i8 as u8);
    assert_eq!(cpu.reg.get_a(), -1 as i8 as u8);
    assert!(!cpu.reg.z);
    assert!(cpu.reg.n);

    cpu.lda_imm(0);
    assert_eq!(cpu.reg.get_a(), 0);
    assert!(cpu.reg.z);
    assert!(!cpu.reg.n);

    cpu.lda_imm(1);
    assert_eq!(cpu.reg.get_a(), 1);
    assert!(!cpu.reg.z);
    assert!(!cpu.reg.n);
}

#[test]
fn test_lda_adr() {
    let (mut cpu, mut mem) = setup();

    mem.write(0, -1 as i8 as u8);
    cpu.lda_adr(&mem, 0);
    assert_eq!(cpu.reg.get_a(), -1 as i8 as u8);
    assert!(!cpu.reg.z);
    assert!(cpu.reg.n);

    mem.write(0, 0);
    cpu.lda_adr(&mem, 0);
    assert_eq!(cpu.reg.get_a(), 0);
    assert!(cpu.reg.z);
    assert!(!cpu.reg.n);

    mem.write(0, 1);
    cpu.lda_adr(&mem, 0);
    assert_eq!(cpu.reg.get_a(), 1);
    assert!(!cpu.reg.z);
    assert!(!cpu.reg.n);
}

#[test]
fn test_ldx_imm() {
    let (mut cpu, _mem) = setup();

    cpu.ldx_imm(-1 as i8 as u8);
    assert_eq!(cpu.reg.get_x(), -1 as i8 as u8);
    assert!(!cpu.reg.z);
    assert!(cpu.reg.n);

    cpu.ldx_imm(0);
    assert_eq!(cpu.reg.get_x(), 0);
    assert!(cpu.reg.z);
    assert!(!cpu.reg.n);

    cpu.ldx_imm(1);
    assert_eq!(cpu.reg.get_x(), 1);
    assert!(!cpu.reg.z);
    assert!(!cpu.reg.n);
}

#[test]
fn test_ldx_adr() {
    let (mut cpu, mut mem) = setup();

    mem.write(0, -1 as i8 as u8);
    cpu.ldx_adr(&mem, 0);
    assert_eq!(cpu.reg.get_x(), -1 as i8 as u8);
    assert!(!cpu.reg.z);
    assert!(cpu.reg.n);

    mem.write(0, 0);
    cpu.ldx_adr(&mem, 0);
    assert_eq!(cpu.reg.get_x(), 0);
    assert!(cpu.reg.z);
    assert!(!cpu.reg.n);

    mem.write(0, 1);
    cpu.ldx_adr(&mem, 0);
    assert_eq!(cpu.reg.get_x(), 1);
    assert!(!cpu.reg.z);
    assert!(!cpu.reg.n);
}

#[test]
fn test_ldy_imm() {
    let (mut cpu, _mem) = setup();

    cpu.ldy_imm(-1 as i8 as u8);
    assert_eq!(cpu.reg.get_y(), -1 as i8 as u8);
    assert!(!cpu.reg.z);
    assert!(cpu.reg.n);

    cpu.ldy_imm(0);
    assert_eq!(cpu.reg.get_y(), 0);
    assert!(cpu.reg.z);
    assert!(!cpu.reg.n);

    cpu.ldy_imm(1);
    assert_eq!(cpu.reg.get_y(), 1);
    assert!(!cpu.reg.z);
    assert!(!cpu.reg.n);
}

#[test]
fn test_ldy_adr() {
    let (mut cpu, mut mem) = setup();

    mem.write(0, -1 as i8 as u8);
    cpu.ldy_adr(&mem, 0);
    assert_eq!(cpu.reg.get_y(), -1 as i8 as u8);
    assert!(!cpu.reg.z);
    assert!(cpu.reg.n);

    mem.write(0, 0);
    cpu.ldy_adr(&mem, 0);
    assert_eq!(cpu.reg.get_y(), 0);
    assert!(cpu.reg.z);
    assert!(!cpu.reg.n);

    mem.write(0, 1);
    cpu.ldy_adr(&mem, 0);
    assert_eq!(cpu.reg.get_y(), 1);
    assert!(!cpu.reg.z);
    assert!(!cpu.reg.n);
}

#[test]
fn test_lsr_imp() {
    let (mut cpu, _mem) = setup();

    cpu.reg.update_a(0b0000_0010);
    cpu.lsr_imp();
    assert_eq!(cpu.reg.get_a(), 0b0000_0001);
    assert!(!cpu.reg.c);
    assert!(!cpu.reg.z);
    assert!(!cpu.reg.n);

    cpu.reg.update_a(0b0000_0001);
    cpu.lsr_imp();
    assert_eq!(cpu.reg.get_a(), 0b0000_0000);
    assert!(cpu.reg.c);
    assert!(cpu.reg.z);
    assert!(!cpu.reg.n);
}

#[test]
fn test_lsr_adr() {
    let (mut cpu, mut mem) = setup();

    mem.write(0, 0b0000_0010);
    cpu.lsr_adr(&mut mem, 0);
    assert_eq!(mem.read(0), 0b0000_0001);
    assert!(!cpu.reg.c);
    assert!(!cpu.reg.z);
    assert!(!cpu.reg.n);

    mem.write(0, 0b0000_0001);
    cpu.lsr_adr(&mut mem, 0);
    assert_eq!(cpu.reg.get_a(), 0b0000_0000);
    assert!(cpu.reg.c);
    assert!(cpu.reg.z);
    assert!(!cpu.reg.n);
}

#[test]
fn test_ora_imm() {
    let (mut cpu, _mem) = setup();

    cpu.reg.update_a(0x00);
    cpu.ora_imm(0x00);
    assert_eq!(cpu.reg.get_a(), 0x00);
    assert!(cpu.reg.z);
    assert!(!cpu.reg.n);

    cpu.reg.update_a(0x00);
    cpu.ora_imm(0x01);
    assert_eq!(cpu.reg.get_a(), 0x01);
    assert!(!cpu.reg.z);
    assert!(!cpu.reg.n);

    cpu.reg.update_a(0x00);
    cpu.ora_imm(0b1000_0000);
    assert_eq!(cpu.reg.get_a(), 0b1000_0000);
    assert!(!cpu.reg.z);
    assert!(cpu.reg.n);
}

#[test]
fn test_ora_adr() {
    let (mut cpu, mut mem) = setup();

    cpu.reg.update_a(0x00);
    mem.write(0, 0x00);
    cpu.ora_adr(&mem, 0);
    assert_eq!(cpu.reg.get_a(), 0x00);
    assert!(cpu.reg.z);
    assert!(!cpu.reg.n);

    cpu.reg.update_a(0x00);
    mem.write(0, 0x01);
    cpu.ora_adr(&mem, 0);
    assert_eq!(cpu.reg.get_a(), 0x01);
    assert!(!cpu.reg.z);
    assert!(!cpu.reg.n);

    cpu.reg.update_a(0x00);
    mem.write(0, 0b1000_0000);
    cpu.ora_adr(&mem, 0);
    assert_eq!(cpu.reg.get_a(), 0b1000_0000);
    assert!(!cpu.reg.z);
    assert!(cpu.reg.n);
}

#[test]
fn test_pha() {
    let (mut cpu, mut mem) = setup();
    cpu.reg.update_a(1);
    cpu.pha(&mut mem);
    assert_eq!(cpu.stack_pop(&mem), 1);
}

#[test]
fn test_php() {
    let (mut cpu, mut mem) = setup();
    cpu.reg.c = true;
    cpu.php(&mut mem);
    assert_eq!(cpu.stack_pop(&mem), cpu.reg.get_status(true));
}

#[test]
fn test_pla() {
    let (mut cpu, mut mem) = setup();
    cpu.stack_push(&mut mem, 1);
    cpu.pla(&mem);
    assert_eq!(cpu.reg.get_a(), 1);
}

#[test]
fn test_plp() {
    let (mut cpu, mut mem) = setup();
    cpu.stack_push(&mut mem, 1);
    cpu.plp(&mem);
    assert!(cpu.reg.c);
}

#[test]
fn test_rol_imp() {
    let (mut cpu, _mem) = setup();

    cpu.reg.update_a(0b0000_0001);
    cpu.reg.c = false;
    cpu.rol_imp();
    assert_eq!(cpu.reg.get_a(), 0b0000_0010);
    assert!(!cpu.reg.c);
    assert!(!cpu.reg.z);
    assert!(!cpu.reg.n);

    cpu.reg.update_a(0b1000_0000);
    cpu.reg.c = false;
    cpu.rol_imp();
    assert_eq!(cpu.reg.get_a(), 0b0000_0000);
    assert!(cpu.reg.c);
    assert!(cpu.reg.z);
    assert!(!cpu.reg.n);

    cpu.reg.update_a(0b0100_0000);
    cpu.reg.c = false;
    cpu.rol_imp();
    assert_eq!(cpu.reg.get_a(), 0b1000_0000);
    assert!(!cpu.reg.c);
    assert!(!cpu.reg.z);
    assert!(cpu.reg.n);

    cpu.reg.update_a(0b0000_0000);
    cpu.reg.c = true;
    cpu.rol_imp();
    assert_eq!(cpu.reg.get_a(), 0b0000_0001);
    assert!(!cpu.reg.c);
    assert!(!cpu.reg.z);
    assert!(!cpu.reg.n);
}

#[test]
fn test_rol_adr() {
    let (mut cpu, mut mem) = setup();

    mem.write(0, 0b0000_0001);
    cpu.reg.c = false;
    cpu.rol_adr(&mut mem, 0);
    assert_eq!(mem.read(0), 0b0000_0010);
    assert!(!cpu.reg.c);
    assert!(!cpu.reg.z);
    assert!(!cpu.reg.n);

    mem.write(0, 0b1000_0000);
    cpu.reg.c = false;
    cpu.rol_adr(&mut mem, 0);
    assert_eq!(mem.read(0), 0b0000_0000);
    assert!(cpu.reg.c);
    assert!(cpu.reg.z);
    assert!(!cpu.reg.n);

    mem.write(0, 0b0100_0000);
    cpu.reg.c = false;
    cpu.rol_adr(&mut mem, 0);
    assert_eq!(mem.read(0), 0b1000_0000);
    assert!(!cpu.reg.c);
    assert!(!cpu.reg.z);
    assert!(cpu.reg.n);

    mem.write(0, 0b0000_0000);
    cpu.reg.c = true;
    cpu.rol_adr(&mut mem, 0);
    assert_eq!(mem.read(0), 0b0000_0001);
    assert!(!cpu.reg.c);
    assert!(!cpu.reg.z);
    assert!(!cpu.reg.n);
}

#[test]
fn test_ror_imp() {
    let (mut cpu, _mem) = setup();

    cpu.reg.update_a(0b0000_0010);
    cpu.reg.c = false;
    cpu.ror_imp();
    assert_eq!(cpu.reg.get_a(), 0b0000_0001);
    assert!(!cpu.reg.c);
    assert!(!cpu.reg.z);
    assert!(!cpu.reg.n);

    cpu.reg.update_a(0b0000_0001);
    cpu.reg.c = false;
    cpu.ror_imp();
    assert_eq!(cpu.reg.get_a(), 0b0000_0000);
    assert!(cpu.reg.c);
    assert!(cpu.reg.z);
    assert!(!cpu.reg.n);

    cpu.reg.update_a(0b0000_0000);
    cpu.reg.c = true;
    cpu.ror_imp();
    assert_eq!(cpu.reg.get_a(), 0b1000_0000);
    assert!(!cpu.reg.c);
    assert!(!cpu.reg.z);
    assert!(cpu.reg.n);
}

#[test]
fn test_ror_adr() {
    let (mut cpu, mut mem) = setup();

    mem.write(0, 0b0000_0010);
    cpu.reg.c = false;
    cpu.ror_adr(&mut mem, 0);
    assert_eq!(mem.read(0), 0b0000_0001);
    assert!(!cpu.reg.c);
    assert!(!cpu.reg.z);
    assert!(!cpu.reg.n);

    mem.write(0, 0b0000_0001);
    cpu.reg.c = false;
    cpu.ror_adr(&mut mem, 0);
    assert_eq!(mem.read(0), 0b0000_0000);
    assert!(cpu.reg.c);
    assert!(cpu.reg.z);
    assert!(!cpu.reg.n);

    mem.write(0, 0b0000_0000);
    cpu.reg.c = true;
    cpu.ror_adr(&mut mem, 0);
    assert_eq!(mem.read(0), 0b1000_0000);
    assert!(!cpu.reg.c);
    assert!(!cpu.reg.z);
    assert!(cpu.reg.n);
}

#[test]
fn test_rti() {
    let (mut cpu, mut mem) = setup();
    cpu.stack_push(&mut mem, 0xFF);
    cpu.stack_push(&mut mem, 0x0A);
    cpu.stack_push(&mut mem, 0b0000_0001);
    cpu.rti(&mem);
    assert!(cpu.reg.c);
    assert_eq!(cpu.pc, 0xFF0A);
}

#[test]
fn test_rts() {
    let (mut cpu, mut mem) = setup();
    cpu.stack_push(&mut mem, 0xFF);
    cpu.stack_push(&mut mem, 0x0A);
    cpu.rts(&mem);
    assert_eq!(cpu.pc, 0xFF0B);
}

#[test]
fn test_sec() {
    let (mut cpu, _mem) = setup();
    cpu.sec();
    assert!(cpu.reg.c);
}

#[test]
fn test_sed() {
    let (mut cpu, _mem) = setup();
    cpu.sed();
    assert!(cpu.reg.d);
}

#[test]
fn test_sei() {
    let (mut cpu, _mem) = setup();
    cpu.sei();
    assert!(cpu.reg.i);
}

#[test]
fn test_sta() {
    let (mut cpu, mut mem) = setup();
    cpu.reg.update_a(1);
    cpu.sta(&mut mem, 0xABCD);
    assert_eq!(mem.read(0xABCD), 1);
}

#[test]
fn test_stx() {
    let (mut cpu, mut mem) = setup();
    cpu.reg.update_x(1);
    cpu.stx(&mut mem, 0xABCD);
    assert_eq!(mem.read(0xABCD), 1);
}

#[test]
fn test_sty() {
    let (mut cpu, mut mem) = setup();
    cpu.reg.update_y(1);
    cpu.sty(&mut mem, 0xABCD);
    assert_eq!(mem.read(0xABCD), 1);
}

#[test]
fn test_tax() {
    let (mut cpu, _mem) = setup();
    cpu.reg.update_a(1);
    cpu.tax();
    assert_eq!(cpu.reg.get_x(), 1);
}

#[test]
fn test_tay() {
    let (mut cpu, _mem) = setup();
    cpu.reg.update_a(1);
    cpu.tay();
    assert_eq!(cpu.reg.get_y(), 1);
}

#[test]
fn test_tsx() {
    let (mut cpu, _mem) = setup();
    cpu.sp = 1;
    cpu.tsx();
    assert_eq!(cpu.reg.get_x(), 1);
}

#[test]
fn test_txa() {
    let (mut cpu, _mem) = setup();
    cpu.reg.update_x(1);
    cpu.txa();
    assert_eq!(cpu.reg.get_a(), 1);
}

#[test]
fn test_txs() {
    let (mut cpu, _mem) = setup();
    cpu.reg.update_x(1);
    cpu.txs();
    assert_eq!(cpu.sp, 1);
}

#[test]
fn test_tya() {
    let (mut cpu, _mem) = setup();
    cpu.reg.update_y(1);
    cpu.tya();
    assert_eq!(cpu.reg.get_a(), 1);
}
