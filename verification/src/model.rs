//! The machine model: a mathematical state (registers, PC, SP, and the
//! bytes behind the bus) together with one function per instruction saying
//! exactly what it does to that state.  The executable interpreter in
//! `cpu` proves, instruction by instruction, that it implements this model.

use vstd::prelude::*;

verus! {

use crate::Cpu;
use crate::Variant;
use crate::instruction::AddressingMode;
use crate::instruction::InstructionCode;
use crate::instruction::OperationInput;
use crate::registers::RegisterState;
use crate::registers::status_byte;
use crate::registers::with_a;
use crate::registers::with_nz;
use crate::registers::with_status;
use crate::registers::with_x;
use crate::registers::with_y;

/// The high byte of every vector and of nothing else: vectors live in the
/// last page of memory.
pub const VECTOR_BASE: u8 = 0xFF;

/// The low byte of the NMI vector (FFFA/FFFB).
pub const NMI_VECTOR: u8 = 0xFA;

/// The low byte of the reset vector (FFFC/FFFD).
pub const RESET_VECTOR: u8 = 0xFC;

/// The low byte of the shared IRQ and BRK vector (FFFE/FFFF).
pub const IRQ_BRK_VECTOR: u8 = 0xFE;

/// The whole machine as the processor sees it: the register file, the
/// program counter, the stack pointer, and one byte per address.
#[verifier::ext_equal]
pub struct Machine {
    pub regs: RegisterState,
    pub pc: u16,
    pub sp: u8,
    pub mem: Seq<u8>,
}

impl Machine {
    /// A well-formed machine holds exactly one byte per 16-bit address.
    pub open spec fn wf(self) -> bool {
        self.mem.len() == 0x10000
    }
}

/// The machine made of a processor value and the bytes behind its bus.
pub open spec fn machine<V>(cpu: Cpu<V>, mem: Seq<u8>) -> Machine {
    Machine { regs: cpu.reg, pc: cpu.pc, sp: cpu.sp, mem }
}

/// The low byte of a 16-bit word.
pub open spec fn lo_byte(w: u16) -> u8 {
    (w & 0xFF) as u8
}

/// The high byte of a 16-bit word.
pub open spec fn hi_byte(w: u16) -> u8 {
    (w >> 8) as u8
}

/// The 16-bit word with the given high and low bytes.
pub open spec fn word(high: u8, low: u8) -> u16 {
    ((high as u16) << 8) | (low as u16)
}

/// An 8-bit branch displacement as a sign-extended 16-bit offset.
pub open spec fn sign_extend(d: u8) -> u16 {
    d as i8 as u16
}

/// The byte at `addr`.
pub open spec fn byte_at(m: Machine, addr: u16) -> u8 {
    m.mem[addr as int]
}

/// The machine with the byte at `addr` replaced.
pub open spec fn with_byte(m: Machine, addr: u16, value: u8) -> Machine {
    Machine { mem: m.mem.update(addr as int, value), ..m }
}

/// A 16-bit little-endian pointer read from `(high:low)`, with the second
/// byte taken from `(high:low+1)` where `low + 1` wraps at 8 bits — the
/// page never changes.  This is the NMOS behaviour behind both the
/// indirect-JMP page-boundary quirk and the zero-page pointer wrap.
pub open spec fn ptr_word(m: Machine, high: u8, low: u8) -> u16 {
    word(byte_at(m, word(high, low.wrapping_add(1))), byte_at(m, word(high, low)))
}

/// The machine after fetching one byte at PC, and that byte.
pub open spec fn fetched(m: Machine) -> (Machine, u8) {
    (Machine { pc: m.pc.wrapping_add(1), ..m }, byte_at(m, m.pc))
}

/// The machine after fetching a little-endian word at PC, and that word.
pub open spec fn fetched_word(m: Machine) -> (Machine, u16) {
    let (m1, lo) = fetched(m);
    let (m2, hi) = fetched(m1);
    (m2, word(hi, lo))
}

/// The stack cell for a stack pointer value: page one at offset `sp`.
pub open spec fn stack_location(sp: u8) -> u16 {
    word(0x01, sp)
}

/// The machine after pushing `value`: the byte lands in the current stack
/// cell and SP moves down one, wrapping inside page one.
pub open spec fn pushed(m: Machine, value: u8) -> Machine {
    Machine { sp: m.sp.wrapping_sub(1), ..with_byte(m, stack_location(m.sp), value) }
}

/// The machine after popping, and the byte popped: SP moves up one,
/// wrapping inside page one, and the byte comes from the new stack cell.
pub open spec fn popped(m: Machine) -> (Machine, u8) {
    let sp1 = m.sp.wrapping_add(1);
    (Machine { sp: sp1, ..m }, byte_at(m, stack_location(sp1)))
}

/// The interrupt sequence: push PC high then low, push the status byte
/// with the B bit set to `brk`, set I, and load PC from the little-endian
/// vector at `(FF:vector)`.
pub open spec fn interrupt_sequence(m: Machine, vector: u8, brk: bool) -> Machine {
    let m1 = pushed(m, hi_byte(m.pc));
    let m2 = pushed(m1, lo_byte(m.pc));
    let m3 = pushed(m2, status_byte(m.regs, brk));
    Machine {
        regs: RegisterState { i: true, ..m3.regs },
        pc: ptr_word(m3, VECTOR_BASE, vector),
        ..m3
    }
}

/// Reset: set I, move SP down three without writing anything (the chip
/// pretends to push three bytes), and load PC from the reset vector at
/// FFFC/FFFD.  Nothing else changes; A and the other flags survive.
pub open spec fn reset_state(m: Machine) -> Machine {
    Machine {
        regs: RegisterState { i: true, ..m.regs },
        sp: m.sp.wrapping_sub(3),
        pc: ptr_word(m, VECTOR_BASE, RESET_VECTOR),
        ..m
    }
}

/// A maskable interrupt: ignored when I is set, else the interrupt
/// sequence with B clear and the IRQ vector at FFFE/FFFF.
pub open spec fn irq_state(m: Machine) -> Machine {
    if m.regs.i {
        m
    } else {
        interrupt_sequence(m, IRQ_BRK_VECTOR, false)
    }
}

/// A non-maskable interrupt: always the interrupt sequence with B clear
/// and the NMI vector at FFFA/FFFB.
pub open spec fn nmi_state(m: Machine) -> Machine {
    interrupt_sequence(m, NMI_VECTOR, false)
}

/// How many ones `c` contributes to a sum.
pub open spec fn carry_bit(c: bool) -> int {
    if c {
        1
    } else {
        0
    }
}

/// The low 8 bits of `a + mv + carry`.
pub open spec fn adc_value(a: u8, mv: u8, c: bool) -> u8 {
    ((a + mv + carry_bit(c)) % 256) as u8
}

/// The carry out of the full 9-bit sum.
pub open spec fn adc_carry(a: u8, mv: u8, c: bool) -> bool {
    a + mv + carry_bit(c) > 0xFF
}

/// Signed overflow of the sum: the carry out of bit 6 differs from the
/// carry out of bit 7.
pub open spec fn adc_overflow(a: u8, mv: u8, c: bool) -> bool {
    ((a & 0x7F) + (mv & 0x7F) + carry_bit(c) > 0x7F) != adc_carry(a, mv, c)
}

/// The register file after adding `mv` with carry into A: C from the 9-bit
/// sum, V from signed overflow, A the low 8 bits, N and Z from A.
pub open spec fn adc_regs(r: RegisterState, mv: u8) -> RegisterState {
    with_a(
        RegisterState { c: adc_carry(r.a, mv, r.c), v: adc_overflow(r.a, mv, r.c), ..r },
        adc_value(r.a, mv, r.c),
    )
}

/// The register file after a compare of register value `rv` against `mv`:
/// N and Z from the wrapping difference, C exactly when `rv >= mv` as
/// unsigned; the register itself is untouched.
pub open spec fn cmp_regs(r: RegisterState, rv: u8, mv: u8) -> RegisterState {
    RegisterState { c: rv >= mv, ..with_nz(r, rv.wrapping_sub(mv)) }
}

// Per-instruction transitions.  Each takes the machine as it stands when
// the operation runs (operand bytes already consumed, PC past the whole
// instruction) and yields the machine after it.

pub open spec fn op_adc(m: Machine, v: u8) -> Machine {
    Machine { regs: adc_regs(m.regs, v), ..m }
}

/// SBC is ADC of the one's complement of the operand; decimal mode is not
/// interpreted.
pub open spec fn op_sbc(m: Machine, v: u8) -> Machine {
    op_adc(m, v ^ 0xFF)
}

pub open spec fn op_and(m: Machine, v: u8) -> Machine {
    Machine { regs: with_a(m.regs, m.regs.a & v), ..m }
}

pub open spec fn op_ora(m: Machine, v: u8) -> Machine {
    Machine { regs: with_a(m.regs, m.regs.a | v), ..m }
}

pub open spec fn op_eor(m: Machine, v: u8) -> Machine {
    Machine { regs: with_a(m.regs, m.regs.a ^ v), ..m }
}

/// The byte rotated left through the old carry.
pub open spec fn rol_value(v: u8, c: bool) -> u8 {
    (v << 1) | (if c { 1u8 } else { 0u8 })
}

/// The byte rotated right through the old carry.
pub open spec fn ror_value(v: u8, c: bool) -> u8 {
    (v >> 1) | (if c { 0x80u8 } else { 0u8 })
}

/// The register file after shifting A left: C takes bit 7, bit 0 is zero.
pub open spec fn asl_regs(r: RegisterState) -> RegisterState {
    with_a(RegisterState { c: r.a & 0x80 != 0, ..r }, r.a << 1)
}

/// The register file after shifting A right: C takes bit 0, bit 7 is zero.
pub open spec fn lsr_regs(r: RegisterState) -> RegisterState {
    with_a(RegisterState { c: r.a & 0x01 != 0, ..r }, r.a >> 1)
}

/// The register file after rotating A left through C.
pub open spec fn rol_regs(r: RegisterState) -> RegisterState {
    with_a(RegisterState { c: r.a & 0x80 != 0, ..r }, rol_value(r.a, r.c))
}

/// The register file after rotating A right through C.
pub open spec fn ror_regs(r: RegisterState) -> RegisterState {
    with_a(RegisterState { c: r.a & 0x01 != 0, ..r }, ror_value(r.a, r.c))
}

pub open spec fn op_asl_acc(m: Machine) -> Machine {
    Machine { regs: asl_regs(m.regs), ..m }
}

pub open spec fn op_lsr_acc(m: Machine) -> Machine {
    Machine { regs: lsr_regs(m.regs), ..m }
}

pub open spec fn op_rol_acc(m: Machine) -> Machine {
    Machine { regs: rol_regs(m.regs), ..m }
}

pub open spec fn op_ror_acc(m: Machine) -> Machine {
    Machine { regs: ror_regs(m.regs), ..m }
}

pub open spec fn op_asl_mem(m: Machine, addr: u16) -> Machine {
    let v = byte_at(m, addr);
    Machine {
        regs: RegisterState { c: v & 0x80 != 0, ..with_nz(m.regs, v << 1) },
        ..with_byte(m, addr, v << 1)
    }
}

pub open spec fn op_lsr_mem(m: Machine, addr: u16) -> Machine {
    let v = byte_at(m, addr);
    Machine {
        regs: RegisterState { c: v & 0x01 != 0, ..with_nz(m.regs, v >> 1) },
        ..with_byte(m, addr, v >> 1)
    }
}

pub open spec fn op_rol_mem(m: Machine, addr: u16) -> Machine {
    let v = byte_at(m, addr);
    let r = rol_value(v, m.regs.c);
    Machine { regs: RegisterState { c: v & 0x80 != 0, ..with_nz(m.regs, r) }, ..with_byte(m, addr, r) }
}

pub open spec fn op_ror_mem(m: Machine, addr: u16) -> Machine {
    let v = byte_at(m, addr);
    let r = ror_value(v, m.regs.c);
    Machine { regs: RegisterState { c: v & 0x01 != 0, ..with_nz(m.regs, r) }, ..with_byte(m, addr, r) }
}

/// A branch: when `taken`, PC moves by the sign-extended displacement with
/// 16-bit wrap; no flag changes either way.
pub open spec fn op_branch(m: Machine, taken: bool, offset: u16) -> Machine {
    if taken {
        Machine { pc: m.pc.wrapping_add(offset), ..m }
    } else {
        m
    }
}

pub open spec fn op_bit(m: Machine, v: u8) -> Machine {
    Machine {
        regs: RegisterState {
            z: m.regs.a & v == 0,
            v: v & 0x40 != 0,
            n: v & 0x80 != 0,
            ..m.regs
        },
        ..m
    }
}

/// BRK: advance PC past the padding byte, then run the interrupt sequence
/// with B set and the IRQ vector.
pub open spec fn op_brk(m: Machine) -> Machine {
    interrupt_sequence(Machine { pc: m.pc.wrapping_add(1), ..m }, IRQ_BRK_VECTOR, true)
}

pub open spec fn op_cmp(m: Machine, v: u8) -> Machine {
    Machine { regs: cmp_regs(m.regs, m.regs.a, v), ..m }
}

pub open spec fn op_cpx(m: Machine, v: u8) -> Machine {
    Machine { regs: cmp_regs(m.regs, m.regs.x, v), ..m }
}

pub open spec fn op_cpy(m: Machine, v: u8) -> Machine {
    Machine { regs: cmp_regs(m.regs, m.regs.y, v), ..m }
}

pub open spec fn op_dec(m: Machine, addr: u16) -> Machine {
    let v = byte_at(m, addr).wrapping_sub(1);
    Machine { regs: with_nz(m.regs, v), ..with_byte(m, addr, v) }
}

pub open spec fn op_inc(m: Machine, addr: u16) -> Machine {
    let v = byte_at(m, addr).wrapping_add(1);
    Machine { regs: with_nz(m.regs, v), ..with_byte(m, addr, v) }
}

pub open spec fn op_dex(m: Machine) -> Machine {
    Machine { regs: with_x(m.regs, m.regs.x.wrapping_sub(1)), ..m }
}

pub open spec fn op_dey(m: Machine) -> Machine {
    Machine { regs: with_y(m.regs, m.regs.y.wrapping_sub(1)), ..m }
}

pub open spec fn op_inx(m: Machine) -> Machine {
    Machine { regs: with_x(m.regs, m.regs.x.wrapping_add(1)), ..m }
}

pub open spec fn op_iny(m: Machine) -> Machine {
    Machine { regs: with_y(m.regs, m.regs.y.wrapping_add(1)), ..m }
}

pub open spec fn op_jmp(m: Machine, addr: u16) -> Machine {
    Machine { pc: addr, ..m }
}

/// JSR: push the address of the last byte of the instruction (PC minus
/// one), high byte first, then jump.
pub open spec fn op_jsr(m: Machine, addr: u16) -> Machine {
    let ret = m.pc.wrapping_sub(1);
    let m1 = pushed(m, hi_byte(ret));
    let m2 = pushed(m1, lo_byte(ret));
    Machine { pc: addr, ..m2 }
}

/// RTS: pop low then high, and resume one past the popped address.
pub open spec fn op_rts(m: Machine) -> Machine {
    let (m1, lo) = popped(m);
    let (m2, hi) = popped(m1);
    Machine { pc: word(hi, lo).wrapping_add(1), ..m2 }
}

/// RTI: pop the status byte, then PC low, then PC high; no one is added
/// to the popped address.
pub open spec fn op_rti(m: Machine) -> Machine {
    let (m1, status) = popped(m);
    let m2 = Machine { regs: with_status(m1.regs, status), ..m1 };
    let (m3, lo) = popped(m2);
    let (m4, hi) = popped(m3);
    Machine { pc: word(hi, lo), ..m4 }
}

pub open spec fn op_lda(m: Machine, v: u8) -> Machine {
    Machine { regs: with_a(m.regs, v), ..m }
}

pub open spec fn op_ldx(m: Machine, v: u8) -> Machine {
    Machine { regs: with_x(m.regs, v), ..m }
}

pub open spec fn op_ldy(m: Machine, v: u8) -> Machine {
    Machine { regs: with_y(m.regs, v), ..m }
}

pub open spec fn op_pha(m: Machine) -> Machine {
    pushed(m, m.regs.a)
}

/// PHP pushes the status byte with the B bit set, as every software push
/// does.
pub open spec fn op_php(m: Machine) -> Machine {
    pushed(m, status_byte(m.regs, true))
}

pub open spec fn op_pla(m: Machine) -> Machine {
    let (m1, v) = popped(m);
    Machine { regs: with_a(m1.regs, v), ..m1 }
}

pub open spec fn op_plp(m: Machine) -> Machine {
    let (m1, v) = popped(m);
    Machine { regs: with_status(m1.regs, v), ..m1 }
}

pub open spec fn op_sta(m: Machine, addr: u16) -> Machine {
    with_byte(m, addr, m.regs.a)
}

pub open spec fn op_stx(m: Machine, addr: u16) -> Machine {
    with_byte(m, addr, m.regs.x)
}

pub open spec fn op_sty(m: Machine, addr: u16) -> Machine {
    with_byte(m, addr, m.regs.y)
}

pub open spec fn op_tax(m: Machine) -> Machine {
    Machine { regs: with_x(m.regs, m.regs.a), ..m }
}

pub open spec fn op_tay(m: Machine) -> Machine {
    Machine { regs: with_y(m.regs, m.regs.a), ..m }
}

pub open spec fn op_tsx(m: Machine) -> Machine {
    Machine { regs: with_x(m.regs, m.sp), ..m }
}

pub open spec fn op_txa(m: Machine) -> Machine {
    Machine { regs: with_a(m.regs, m.regs.x), ..m }
}

/// TXS copies X to SP without touching any flag.
pub open spec fn op_txs(m: Machine) -> Machine {
    Machine { sp: m.regs.x, ..m }
}

pub open spec fn op_tya(m: Machine) -> Machine {
    Machine { regs: with_a(m.regs, m.regs.y), ..m }
}

/// Addressing-mode evaluation: consume 0–2 operand bytes at PC and
/// produce the operation's input.  Only the PC (and nothing else) moves.
pub open spec fn eval_addressing(m: Machine, am: AddressingMode) -> (Machine, OperationInput) {
    match am {
        AddressingMode::ACC | AddressingMode::IMP => (m, OperationInput::IMP),
        AddressingMode::IMM => {
            let (m1, v) = fetched(m);
            (m1, OperationInput::IMM(v))
        },
        AddressingMode::ZPG => {
            let (m1, v) = fetched(m);
            (m1, OperationInput::ADR(v as u16))
        },
        AddressingMode::ZPX => {
            let (m1, v) = fetched(m);
            (m1, OperationInput::ADR(v.wrapping_add(m.regs.x) as u16))
        },
        AddressingMode::ZPY => {
            let (m1, v) = fetched(m);
            (m1, OperationInput::ADR(v.wrapping_add(m.regs.y) as u16))
        },
        AddressingMode::REL => {
            let (m1, v) = fetched(m);
            (m1, OperationInput::REL(sign_extend(v)))
        },
        AddressingMode::ABS => {
            let (m1, w) = fetched_word(m);
            (m1, OperationInput::ADR(w))
        },
        AddressingMode::ABX => {
            let (m1, w) = fetched_word(m);
            (m1, OperationInput::ADR(w.wrapping_add(m.regs.x as u16)))
        },
        AddressingMode::ABY => {
            let (m1, w) = fetched_word(m);
            (m1, OperationInput::ADR(w.wrapping_add(m.regs.y as u16)))
        },
        AddressingMode::IND => {
            let (m1, lo) = fetched(m);
            let (m2, hi) = fetched(m1);
            (m2, OperationInput::ADR(ptr_word(m2, hi, lo)))
        },
        AddressingMode::INX => {
            let (m1, v) = fetched(m);
            (m1, OperationInput::ADR(ptr_word(m1, 0, v.wrapping_add(m.regs.x))))
        },
        AddressingMode::INY => {
            let (m1, v) = fetched(m);
            (m1, OperationInput::ADR(ptr_word(m1, 0, v).wrapping_add(m.regs.y as u16)))
        },
    }
}

/// The pairings of instruction and operand shape the executor implements.
/// A decoder that yields any other pairing cannot be stepped.
pub open spec fn op_supported(code: InstructionCode, input: OperationInput) -> bool {
    match (code, input) {
        (InstructionCode::ADC, OperationInput::IMM(_)) => true,
        (InstructionCode::ADC, OperationInput::ADR(_)) => true,
        (InstructionCode::AND, OperationInput::IMM(_)) => true,
        (InstructionCode::AND, OperationInput::ADR(_)) => true,
        (InstructionCode::ASL, OperationInput::IMP) => true,
        (InstructionCode::ASL, OperationInput::ADR(_)) => true,
        (InstructionCode::BCC, OperationInput::REL(_)) => true,
        (InstructionCode::BCS, OperationInput::REL(_)) => true,
        (InstructionCode::BEQ, OperationInput::REL(_)) => true,
        (InstructionCode::BIT, OperationInput::ADR(_)) => true,
        (InstructionCode::BMI, OperationInput::REL(_)) => true,
        (InstructionCode::BNE, OperationInput::REL(_)) => true,
        (InstructionCode::BPL, OperationInput::REL(_)) => true,
        (InstructionCode::BRK, OperationInput::IMP) => true,
        (InstructionCode::BVC, OperationInput::REL(_)) => true,
        (InstructionCode::BVS, OperationInput::REL(_)) => true,
        (InstructionCode::CLC, OperationInput::IMP) => true,
        (InstructionCode::CLD, OperationInput::IMP) => true,
        (InstructionCode::CLI, OperationInput::IMP) => true,
        (InstructionCode::CLV, OperationInput::IMP) => true,
        (InstructionCode::CMP, OperationInput::IMM(_)) => true,
        (InstructionCode::CMP, OperationInput::ADR(_)) => true,
        (InstructionCode::CPX, OperationInput::IMM(_)) => true,
        (InstructionCode::CPX, OperationInput::ADR(_)) => true,
        (InstructionCode::CPY, OperationInput::IMM(_)) => true,
        (InstructionCode::CPY, OperationInput::ADR(_)) => true,
        (InstructionCode::DEC, OperationInput::ADR(_)) => true,
        (InstructionCode::DEX, OperationInput::IMP) => true,
        (InstructionCode::DEY, OperationInput::IMP) => true,
        (InstructionCode::EOR, OperationInput::IMM(_)) => true,
        (InstructionCode::EOR, OperationInput::ADR(_)) => true,
        (InstructionCode::INC, OperationInput::ADR(_)) => true,
        (InstructionCode::INX, OperationInput::IMP) => true,
        (InstructionCode::INY, OperationInput::IMP) => true,
        (InstructionCode::JMP, OperationInput::ADR(_)) => true,
        (InstructionCode::JSR, OperationInput::ADR(_)) => true,
        (InstructionCode::LDA, OperationInput::IMM(_)) => true,
        (InstructionCode::LDA, OperationInput::ADR(_)) => true,
        (InstructionCode::LDX, OperationInput::IMM(_)) => true,
        (InstructionCode::LDX, OperationInput::ADR(_)) => true,
        (InstructionCode::LDY, OperationInput::IMM(_)) => true,
        (InstructionCode::LDY, OperationInput::ADR(_)) => true,
        (InstructionCode::LSR, OperationInput::IMP) => true,
        (InstructionCode::LSR, OperationInput::ADR(_)) => true,
        (InstructionCode::NOP, OperationInput::IMP) => true,
        (InstructionCode::ORA, OperationInput::IMM(_)) => true,
        (InstructionCode::ORA, OperationInput::ADR(_)) => true,
        (InstructionCode::PHA, OperationInput::IMP) => true,
        (InstructionCode::PHP, OperationInput::IMP) => true,
        (InstructionCode::PLA, OperationInput::IMP) => true,
        (InstructionCode::PLP, OperationInput::IMP) => true,
        (InstructionCode::ROL, OperationInput::IMP) => true,
        (InstructionCode::ROL, OperationInput::ADR(_)) => true,
        (InstructionCode::ROR, OperationInput::IMP) => true,
        (InstructionCode::ROR, OperationInput::ADR(_)) => true,
        (InstructionCode::RTI, OperationInput::IMP) => true,
        (InstructionCode::RTS, OperationInput::IMP) => true,
        (InstructionCode::SBC, OperationInput::IMM(_)) => true,
        (InstructionCode::SBC, OperationInput::ADR(_)) => true,
        (InstructionCode::SEC, OperationInput::IMP) => true,
        (InstructionCode::SED, OperationInput::IMP) => true,
        (InstructionCode::SEI, OperationInput::IMP) => true,
        (InstructionCode::STA, OperationInput::ADR(_)) => true,
        (InstructionCode::STX, OperationInput::ADR(_)) => true,
        (InstructionCode::STY, OperationInput::ADR(_)) => true,
        (InstructionCode::TAX, OperationInput::IMP) => true,
        (InstructionCode::TAY, OperationInput::IMP) => true,
        (InstructionCode::TSX, OperationInput::IMP) => true,
        (InstructionCode::TXA, OperationInput::IMP) => true,
        (InstructionCode::TXS, OperationInput::IMP) => true,
        (InstructionCode::TYA, OperationInput::IMP) => true,
        _ => false,
    }
}

/// One operation on the machine as it stands after addressing.  An
/// operand behind an address is one memory read; read-modify-write
/// operations read and write the same address.  Unsupported pairings
/// leave the machine as it is (the interpreter refuses them up front).
pub open spec fn exec_instruction(m: Machine, code: InstructionCode, input: OperationInput) -> Machine {
    match (code, input) {
        (InstructionCode::ADC, OperationInput::IMM(v)) => op_adc(m, v),
        (InstructionCode::ADC, OperationInput::ADR(a)) => op_adc(m, byte_at(m, a)),
        (InstructionCode::AND, OperationInput::IMM(v)) => op_and(m, v),
        (InstructionCode::AND, OperationInput::ADR(a)) => op_and(m, byte_at(m, a)),
        (InstructionCode::ASL, OperationInput::IMP) => op_asl_acc(m),
        (InstructionCode::ASL, OperationInput::ADR(a)) => op_asl_mem(m, a),
        (InstructionCode::BCC, OperationInput::REL(o)) => op_branch(m, !m.regs.c, o),
        (InstructionCode::BCS, OperationInput::REL(o)) => op_branch(m, m.regs.c, o),
        (InstructionCode::BEQ, OperationInput::REL(o)) => op_branch(m, m.regs.z, o),
        (InstructionCode::BIT, OperationInput::ADR(a)) => op_bit(m, byte_at(m, a)),
        (InstructionCode::BMI, OperationInput::REL(o)) => op_branch(m, m.regs.n, o),
        (InstructionCode::BNE, OperationInput::REL(o)) => op_branch(m, !m.regs.z, o),
        (InstructionCode::BPL, OperationInput::REL(o)) => op_branch(m, !m.regs.n, o),
        (InstructionCode::BRK, OperationInput::IMP) => op_brk(m),
        (InstructionCode::BVC, OperationInput::REL(o)) => op_branch(m, !m.regs.v, o),
        (InstructionCode::BVS, OperationInput::REL(o)) => op_branch(m, m.regs.v, o),
        (InstructionCode::CLC, OperationInput::IMP) => Machine {
            regs: RegisterState { c: false, ..m.regs },
            ..m
        },
        (InstructionCode::CLD, OperationInput::IMP) => Machine {
            regs: RegisterState { d: false, ..m.regs },
            ..m
        },
        (InstructionCode::CLI, OperationInput::IMP) => Machine {
            regs: RegisterState { i: false, ..m.regs },
            ..m
        },
        (InstructionCode::CLV, OperationInput::IMP) => Machine {
            regs: RegisterState { v: false, ..m.regs },
            ..m
        },
        (InstructionCode::CMP, OperationInput::IMM(v)) => op_cmp(m, v),
        (InstructionCode::CMP, OperationInput::ADR(a)) => op_cmp(m, byte_at(m, a)),
        (InstructionCode::CPX, OperationInput::IMM(v)) => op_cpx(m, v),
        (InstructionCode::CPX, OperationInput::ADR(a)) => op_cpx(m, byte_at(m, a)),
        (InstructionCode::CPY, OperationInput::IMM(v)) => op_cpy(m, v),
        (InstructionCode::CPY, OperationInput::ADR(a)) => op_cpy(m, byte_at(m, a)),
        (InstructionCode::DEC, OperationInput::ADR(a)) => op_dec(m, a),
        (InstructionCode::DEX, OperationInput::IMP) => op_dex(m),
        (InstructionCode::DEY, OperationInput::IMP) => op_dey(m),
        (InstructionCode::EOR, OperationInput::IMM(v)) => op_eor(m, v),
        (InstructionCode::EOR, OperationInput::ADR(a)) => op_eor(m, byte_at(m, a)),
        (InstructionCode::INC, OperationInput::ADR(a)) => op_inc(m, a),
        (InstructionCode::INX, OperationInput::IMP) => op_inx(m),
        (InstructionCode::INY, OperationInput::IMP) => op_iny(m),
        (InstructionCode::JMP, OperationInput::ADR(a)) => op_jmp(m, a),
        (InstructionCode::JSR, OperationInput::ADR(a)) => op_jsr(m, a),
        (InstructionCode::LDA, OperationInput::IMM(v)) => op_lda(m, v),
        (InstructionCode::LDA, OperationInput::ADR(a)) => op_lda(m, byte_at(m, a)),
        (InstructionCode::LDX, OperationInput::IMM(v)) => op_ldx(m, v),
        (InstructionCode::LDX, OperationInput::ADR(a)) => op_ldx(m, byte_at(m, a)),
        (InstructionCode::LDY, OperationInput::IMM(v)) => op_ldy(m, v),
        (InstructionCode::LDY, OperationInput::ADR(a)) => op_ldy(m, byte_at(m, a)),
        (InstructionCode::LSR, OperationInput::IMP) => op_lsr_acc(m),
        (InstructionCode::LSR, OperationInput::ADR(a)) => op_lsr_mem(m, a),
        (InstructionCode::NOP, OperationInput::IMP) => m,
        (InstructionCode::ORA, OperationInput::IMM(v)) => op_ora(m, v),
        (InstructionCode::ORA, OperationInput::ADR(a)) => op_ora(m, byte_at(m, a)),
        (InstructionCode::PHA, OperationInput::IMP) => op_pha(m),
        (InstructionCode::PHP, OperationInput::IMP) => op_php(m),
        (InstructionCode::PLA, OperationInput::IMP) => op_pla(m),
        (InstructionCode::PLP, OperationInput::IMP) => op_plp(m),
        (InstructionCode::ROL, OperationInput::IMP) => op_rol_acc(m),
        (InstructionCode::ROL, OperationInput::ADR(a)) => op_rol_mem(m, a),
        (InstructionCode::ROR, OperationInput::IMP) => op_ror_acc(m),
        (InstructionCode::ROR, OperationInput::ADR(a)) => op_ror_mem(m, a),
        (InstructionCode::RTI, OperationInput::IMP) => op_rti(m),
        (InstructionCode::RTS, OperationInput::IMP) => op_rts(m),
        (InstructionCode::SBC, OperationInput::IMM(v)) => op_sbc(m, v),
        (InstructionCode::SBC, OperationInput::ADR(a)) => op_sbc(m, byte_at(m, a)),
        (InstructionCode::SEC, OperationInput::IMP) => Machine {
            regs: RegisterState { c: true, ..m.regs },
            ..m
        },
        (InstructionCode::SED, OperationInput::IMP) => Machine {
            regs: RegisterState { d: true, ..m.regs },
            ..m
        },
        (InstructionCode::SEI, OperationInput::IMP) => Machine {
            regs: RegisterState { i: true, ..m.regs },
            ..m
        },
        (InstructionCode::STA, OperationInput::ADR(a)) => op_sta(m, a),
        (InstructionCode::STX, OperationInput::ADR(a)) => op_stx(m, a),
        (InstructionCode::STY, OperationInput::ADR(a)) => op_sty(m, a),
        (InstructionCode::TAX, OperationInput::IMP) => op_tax(m),
        (InstructionCode::TAY, OperationInput::IMP) => op_tay(m),
        (InstructionCode::TSX, OperationInput::IMP) => op_tsx(m),
        (InstructionCode::TXA, OperationInput::IMP) => op_txa(m),
        (InstructionCode::TXS, OperationInput::IMP) => op_txs(m),
        (InstructionCode::TYA, OperationInput::IMP) => op_tya(m),
        _ => m,
    }
}

/// Whether one whole step is possible from `m`: the opcode at PC decodes,
/// and the executor implements the decoded pairing.
pub open spec fn step_enabled<V: Variant>(m: Machine) -> bool {
    match V::decode_spec(byte_at(m, m.pc)) {
        Some((code, mode)) => op_supported(
            code,
            eval_addressing(Machine { pc: m.pc.wrapping_add(1), ..m }, mode).1,
        ),
        None => false,
    }
}

/// One whole step: fetch the opcode at PC (advancing PC), decode it,
/// evaluate the addressing mode, and run the operation.
pub open spec fn machine_step<V: Variant>(m: Machine) -> Machine {
    let opcode = byte_at(m, m.pc);
    let m1 = Machine { pc: m.pc.wrapping_add(1), ..m };
    match V::decode_spec(opcode) {
        Some((code, mode)) => {
            let (m2, input) = eval_addressing(m1, mode);
            exec_instruction(m2, code, input)
        },
        None => m1,
    }
}

} // verus!
