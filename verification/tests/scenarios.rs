//! End-to-end scenarios through `step`, the boundary behaviours of the
//! NMOS addressing quirks, interrupt handling, and concrete instances of
//! the proved laws.

use cpu_6502::Bus;
use cpu_6502::Cpu;
use cpu_6502::instruction::AddressingMode;
use cpu_6502::instruction::InstructionCode;
use cpu_6502::instruction::OperationInput;
use cpu_6502::instruction::get_op_input;
use cpu_6502::Variant;
use cpu_6502::memory::Memory;
use cpu_6502::nmos6502::Nmos6502;

fn setup() -> (Cpu<Nmos6502>, Memory) {
    let mut cpu = Cpu::new(Nmos6502);
    cpu.sp = 0xFF;
    (cpu, Memory::new())
}

#[test]
fn scenario_clc_then_sec() {
    let (mut cpu, mut mem) = setup();
    cpu.pc = 0x00A0;
    mem.write(0x00A0, 0x18);
    mem.write(0x00A1, 0x38);
    cpu.step(&mut mem);
    assert!(!cpu.reg.c);
    assert_eq!(cpu.pc, 0x00A1);
    cpu.step(&mut mem);
    assert!(cpu.reg.c);
    assert_eq!(cpu.pc, 0x00A2);
}

#[test]
fn scenario_adc_signed_overflow() {
    let (mut cpu, mut mem) = setup();
    cpu.pc = 0x00A0;
    cpu.reg.update_a(0x50);
    cpu.reg.c = false;
    mem.write(0x00A0, 0x69);
    mem.write(0x00A1, 0x50);
    cpu.step(&mut mem);
    assert_eq!(cpu.reg.get_a(), 0xA0);
    assert!(!cpu.reg.c);
    assert!(cpu.reg.v);
    assert!(cpu.reg.n);
    assert!(!cpu.reg.z);
}

#[test]
fn scenario_jmp_indirect_page_quirk() {
    let (mut cpu, mut mem) = setup();
    cpu.pc = 0x00A0;
    mem.write(0x00A0, 0x6C);
    mem.write(0x00A1, 0xFF);
    mem.write(0x00A2, 0x02);
    mem.write(0x02FF, 0xCD);
    // The high byte comes from $0200, not $0300: the pointer wraps inside
    // its page.
    mem.write(0x0200, 0xAB);
    mem.write(0x0300, 0x55);
    cpu.step(&mut mem);
    assert_eq!(cpu.pc, 0xABCD);
}

#[test]
fn scenario_jsr_then_rts() {
    let (mut cpu, mut mem) = setup();
    cpu.pc = 0x1000;
    mem.write(0x1000, 0x20);
    mem.write(0x1001, 0x34);
    mem.write(0x1002, 0x12);
    mem.write(0x1234, 0x60);
    cpu.step(&mut mem);
    assert_eq!(cpu.pc, 0x1234);
    assert_eq!(cpu.sp, 0xFD);
    assert_eq!(mem.read(0x01FF), 0x10);
    assert_eq!(mem.read(0x01FE), 0x02);
    cpu.step(&mut mem);
    assert_eq!(cpu.pc, 0x1003);
    assert_eq!(cpu.sp, 0xFF);
}

#[test]
fn scenario_brk_sequence() {
    let (mut cpu, mut mem) = setup();
    cpu.pc = 0xABCD;
    mem.write(0xFFFE, 0xAA);
    mem.write(0xFFFF, 0xBB);
    // The BRK operation itself: it moves PC past the padding byte and
    // pushes the address $ABCE it then stands on.
    cpu.brk(&mut mem);
    assert_eq!(cpu.pc, 0xBBAA);
    assert!(cpu.reg.i);
    assert_eq!(mem.read(0x01FF), 0xAB);
    assert_eq!(mem.read(0x01FE), 0xCE);
    assert_eq!(mem.read(0x01FD), 0x30);
    assert_eq!(cpu.sp, 0xFC);
}

#[test]
fn scenario_zero_page_wrap_on_inx_indirect() {
    let (mut cpu, mut mem) = setup();
    cpu.pc = 0x00A0;
    cpu.reg.update_x(0x01);
    // LDA ($FE,X): the pointer sits at $FF; its low byte comes from $00FF
    // and its high byte wraps to $0000, never touching $0100.
    mem.write(0x00A0, 0xA1);
    mem.write(0x00A1, 0xFE);
    mem.write(0x00FF, 0x40);
    mem.write(0x0000, 0x12);
    mem.write(0x1240, 0x77);
    cpu.step(&mut mem);
    assert_eq!(cpu.reg.get_a(), 0x77);
    assert!(!cpu.reg.n);
    assert!(!cpu.reg.z);
}

#[test]
fn zero_page_index_wraps() {
    let (mut cpu, mut mem) = setup();
    cpu.pc = 0x00A0;
    cpu.reg.update_x(0x01);
    // LDA $FF,X reads $0000, not $0100.
    mem.write(0x00A0, 0xB5);
    mem.write(0x00A1, 0xFF);
    mem.write(0x0000, 0x5A);
    mem.write(0x0100, 0x99);
    cpu.step(&mut mem);
    assert_eq!(cpu.reg.get_a(), 0x5A);
}

#[test]
fn indirect_indexed_adds_y_after_lookup() {
    let (mut cpu, mut mem) = setup();
    cpu.pc = 0x00A0;
    cpu.reg.update_y(0x01);
    // LDA ($FE),Y: the pointer at $FE names $1234, and Y is added to the
    // looked-up address.
    mem.write(0x00A0, 0xB1);
    mem.write(0x00A1, 0xFE);
    mem.write(0x00FE, 0x34);
    mem.write(0x00FF, 0x12);
    mem.write(0x1235, 0x77);
    cpu.step(&mut mem);
    assert_eq!(cpu.reg.get_a(), 0x77);
}

#[test]
fn branch_displacement_is_signed() {
    let (mut cpu, mut mem) = setup();
    cpu.pc = 0x00A0;
    cpu.reg.z = true;
    // BEQ -2: after the fetch advance PC is $A2, and the branch lands
    // back on $A0.
    mem.write(0x00A0, 0xF0);
    mem.write(0x00A1, 0xFE);
    cpu.step(&mut mem);
    assert_eq!(cpu.pc, 0x00A0);
}

#[test]
fn pc_wraps_at_top_of_memory() {
    let (mut cpu, mut mem) = setup();
    cpu.pc = 0xFFFF;
    mem.write(0xFFFF, 0xEA);
    cpu.step(&mut mem);
    assert_eq!(cpu.pc, 0x0000);
}

#[test]
fn stack_pointer_wraps_inside_page_one() {
    let (mut cpu, mut mem) = setup();
    cpu.sp = 0x00;
    cpu.stack_push(&mut mem, 0x42);
    assert_eq!(cpu.sp, 0xFF);
    assert_eq!(mem.read(0x0100), 0x42);
    assert_eq!(cpu.stack_pop(&mem), 0x42);
    assert_eq!(cpu.sp, 0x00);
}

#[test]
fn register_increment_wraps() {
    let (mut cpu, mut mem) = setup();
    cpu.reg.update_x(0xFF);
    cpu.inx();
    assert_eq!(cpu.reg.get_x(), 0x00);
    assert!(cpu.reg.z);
    cpu.reg.update_y(0x00);
    cpu.dey();
    assert_eq!(cpu.reg.get_y(), 0xFF);
    assert!(cpu.reg.n);
    mem.write(0x10, 0xFF);
    cpu.inc(&mut mem, 0x10);
    assert_eq!(mem.read(0x10), 0x00);
    assert!(cpu.reg.z);
}

#[test]
fn reset_loads_vector_and_keeps_flags() {
    let (mut cpu, mut mem) = setup();
    cpu.reg.update_a(0x42);
    cpu.reg.c = true;
    cpu.sp = 0xFF;
    mem.write(0xFFFC, 0xA0);
    mem.write(0xFFFD, 0x12);
    cpu.reset(&mut mem);
    assert_eq!(cpu.pc, 0x12A0);
    assert_eq!(cpu.sp, 0xFC);
    assert!(cpu.reg.i);
    assert_eq!(cpu.reg.get_a(), 0x42);
    assert!(cpu.reg.c);
}

#[test]
fn irq_is_masked_by_interrupt_disable() {
    let (mut cpu, mut mem) = setup();
    cpu.pc = 0x1234;
    cpu.reg.i = true;
    mem.write(0xFFFE, 0x00);
    mem.write(0xFFFF, 0x80);
    cpu.irq(&mut mem);
    assert_eq!(cpu.pc, 0x1234);
    assert_eq!(cpu.sp, 0xFF);

    cpu.reg.i = false;
    cpu.irq(&mut mem);
    assert_eq!(cpu.pc, 0x8000);
    assert_eq!(cpu.sp, 0xFC);
    assert!(cpu.reg.i);
    // The pushed status byte has the B bit clear and bit 5 set.
    assert_eq!(mem.read(0x01FD) & 0x30, 0x20);
}

#[test]
fn nmi_is_not_masked() {
    let (mut cpu, mut mem) = setup();
    cpu.pc = 0x1234;
    cpu.reg.i = true;
    mem.write(0xFFFA, 0x00);
    mem.write(0xFFFB, 0x90);
    cpu.nmi(&mut mem);
    assert_eq!(cpu.pc, 0x9000);
    assert_eq!(cpu.sp, 0xFC);
}

#[test]
fn nmi_then_rti_returns() {
    let (mut cpu, mut mem) = setup();
    cpu.pc = 0x1234;
    cpu.reg.c = true;
    cpu.reg.n = true;
    cpu.reg.i = false;
    mem.write(0xFFFA, 0x00);
    mem.write(0xFFFB, 0x90);
    cpu.nmi(&mut mem);
    assert!(cpu.reg.i);
    assert_eq!(cpu.pc, 0x9000);
    cpu.rti(&mem);
    assert_eq!(cpu.pc, 0x1234);
    assert_eq!(cpu.sp, 0xFF);
    assert!(cpu.reg.c);
    assert!(cpu.reg.n);
    assert!(!cpu.reg.i);
}

#[test]
fn plp_ignores_break_bits() {
    let (mut cpu, mut mem) = setup();
    cpu.stack_push(&mut mem, 0xFF);
    cpu.plp(&mem);
    assert!(cpu.reg.c && cpu.reg.z && cpu.reg.i && cpu.reg.d && cpu.reg.v && cpu.reg.n);

    // Bits 4 and 5 alone set no flag at all.
    cpu.stack_push(&mut mem, 0x30);
    cpu.plp(&mem);
    assert!(!cpu.reg.c && !cpu.reg.z && !cpu.reg.i && !cpu.reg.d && !cpu.reg.v && !cpu.reg.n);
}

#[test]
fn status_byte_has_bit_five_set_and_brk_in_bit_four() {
    let (cpu, _mem) = setup();
    let without_brk = cpu.reg.get_status(false);
    let with_brk = cpu.reg.get_status(true);
    assert_eq!(without_brk & 0x20, 0x20);
    assert_eq!(with_brk & 0x20, 0x20);
    assert_eq!(without_brk & 0x10, 0x00);
    assert_eq!(with_brk & 0x10, 0x10);
}

#[test]
fn status_byte_round_trip_preserves_flags() {
    let (mut cpu, _mem) = setup();
    cpu.reg.c = true;
    cpu.reg.z = false;
    cpu.reg.i = true;
    cpu.reg.d = false;
    cpu.reg.v = true;
    cpu.reg.n = false;
    let packed = cpu.reg.get_status(true);
    cpu.reg.set_status(0x00);
    cpu.reg.set_status(packed);
    assert!(cpu.reg.c);
    assert!(!cpu.reg.z);
    assert!(cpu.reg.i);
    assert!(!cpu.reg.d);
    assert!(cpu.reg.v);
    assert!(!cpu.reg.n);
}

#[test]
fn adc_carry_and_overflow_pairs() {
    let (mut cpu, _mem) = setup();

    // 0x90 + 0x90: carry out and signed overflow.
    cpu.reg.update_a(0x90);
    cpu.reg.c = false;
    cpu.adc_imm(0x90);
    assert_eq!(cpu.reg.get_a(), 0x20);
    assert!(cpu.reg.c);
    assert!(cpu.reg.v);

    // 0xFF + 0x01: carry out, no signed overflow, zero result.
    cpu.reg.update_a(0xFF);
    cpu.reg.c = false;
    cpu.adc_imm(0x01);
    assert_eq!(cpu.reg.get_a(), 0x00);
    assert!(cpu.reg.c);
    assert!(!cpu.reg.v);
    assert!(cpu.reg.z);

    // 0x10 + 0x20 with carry in: plain sum.
    cpu.reg.update_a(0x10);
    cpu.reg.c = true;
    cpu.adc_imm(0x20);
    assert_eq!(cpu.reg.get_a(), 0x31);
    assert!(!cpu.reg.c);
    assert!(!cpu.reg.v);
}

#[test]
fn sbc_borrow_and_overflow_pairs() {
    let (mut cpu, mut mem) = setup();

    // 0x05 - 0x03 with no borrow pending.
    cpu.reg.update_a(0x05);
    cpu.reg.c = true;
    cpu.sbc_imm(0x03);
    assert_eq!(cpu.reg.get_a(), 0x02);
    assert!(cpu.reg.c);
    assert!(!cpu.reg.v);

    // 0x50 - 0xB0: signed overflow, borrow taken.
    cpu.reg.update_a(0x50);
    cpu.reg.c = true;
    cpu.sbc_imm(0xB0);
    assert_eq!(cpu.reg.get_a(), 0xA0);
    assert!(!cpu.reg.c);
    assert!(cpu.reg.v);

    // The memory form subtracts the addressed byte.
    mem.write(0x0040, 0x01);
    cpu.reg.update_a(0x03);
    cpu.reg.c = true;
    cpu.sbc_adr(&mem, 0x0040);
    assert_eq!(cpu.reg.get_a(), 0x02);
    assert!(cpu.reg.c);
}

#[test]
fn rol_then_ror_restores_byte_and_carry() {
    let (mut cpu, _mem) = setup();
    cpu.reg.update_a(0xB5);
    cpu.reg.c = true;
    cpu.rol_imp();
    cpu.ror_imp();
    assert_eq!(cpu.reg.get_a(), 0xB5);
    assert!(cpu.reg.c);

    cpu.reg.update_a(0x2A);
    cpu.reg.c = false;
    cpu.ror_imp();
    cpu.rol_imp();
    assert_eq!(cpu.reg.get_a(), 0x2A);
    assert!(!cpu.reg.c);
}

#[test]
fn stack_round_trips_restore_registers() {
    let (mut cpu, mut mem) = setup();
    cpu.reg.update_a(0x7E);
    cpu.pha(&mut mem);
    cpu.reg.update_a(0x01);
    cpu.pla(&mem);
    assert_eq!(cpu.reg.get_a(), 0x7E);
    assert_eq!(cpu.sp, 0xFF);

    cpu.reg.c = true;
    cpu.reg.v = true;
    cpu.reg.z = false;
    cpu.php(&mut mem);
    cpu.reg.c = false;
    cpu.reg.v = false;
    cpu.plp(&mem);
    assert!(cpu.reg.c);
    assert!(cpu.reg.v);
    assert!(!cpu.reg.z);
    assert_eq!(cpu.sp, 0xFF);
}

#[test]
fn decode_covers_exactly_the_documented_opcodes() {
    let mut documented = 0;
    for opcode in 0..=255u8 {
        if Nmos6502::decode(opcode).is_some() {
            documented += 1;
        }
    }
    assert_eq!(documented, 151);
    assert!(matches!(
        Nmos6502::decode(0x69),
        Some((InstructionCode::ADC, AddressingMode::IMM))
    ));
    assert!(matches!(
        Nmos6502::decode(0x6C),
        Some((InstructionCode::JMP, AddressingMode::IND))
    ));
    assert!(matches!(
        Nmos6502::decode(0x96),
        Some((InstructionCode::STX, AddressingMode::ZPY))
    ));
    assert!(Nmos6502::decode(0x02).is_none());
    assert!(Nmos6502::decode(0xFF).is_none());
}

#[test]
fn op_input_shapes_follow_the_mode() {
    assert!(matches!(get_op_input(AddressingMode::IMP), OperationInput::IMP));
    assert!(matches!(get_op_input(AddressingMode::ACC), OperationInput::IMP));
    assert!(matches!(get_op_input(AddressingMode::IMM), OperationInput::IMM(0)));
    assert!(matches!(get_op_input(AddressingMode::REL), OperationInput::REL(0)));
    assert!(matches!(get_op_input(AddressingMode::ABS), OperationInput::ADR(0)));
    assert!(matches!(get_op_input(AddressingMode::INY), OperationInput::ADR(0)));
}

#[test]
fn fresh_memory_is_zeroed() {
    let mem = Memory::new();
    assert_eq!(mem.read(0x0000), 0);
    assert_eq!(mem.read(0x8000), 0);
    assert_eq!(mem.read(0xFFFF), 0);
}
