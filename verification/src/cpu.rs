//! The executable interpreter: fetch, stack and interrupt plumbing, the
//! addressing-mode evaluator, and one handler per operation.  Every
//! function's contract ties it to the machine model in `model`.

use vstd::prelude::*;

verus! {

use crate::Bus;
use crate::Cpu;
use crate::Variant;
use crate::instruction::AddressingMode;
use crate::instruction::Instruction;
use crate::instruction::InstructionCode;
use crate::instruction::OperationInput;
use crate::model::IRQ_BRK_VECTOR;
use crate::model::NMI_VECTOR;
use crate::model::RESET_VECTOR;
use crate::model::VECTOR_BASE;
use crate::model::byte_at;
use crate::model::eval_addressing;
use crate::model::exec_instruction;
use crate::model::fetched;
use crate::model::fetched_word;
use crate::model::interrupt_sequence;
use crate::model::irq_state;
use crate::model::machine;
use crate::model::machine_step;
use crate::model::nmi_state;
use crate::model::op_asl_mem;
use crate::model::op_bit;
use crate::model::op_brk;
use crate::model::op_dec;
use crate::model::op_inc;
use crate::model::op_jsr;
use crate::model::op_lsr_mem;
use crate::model::op_pha;
use crate::model::op_php;
use crate::model::op_pla;
use crate::model::op_plp;
use crate::model::op_rol_mem;
use crate::model::op_ror_mem;
use crate::model::op_rti;
use crate::model::op_rts;
use crate::model::op_sta;
use crate::model::op_stx;
use crate::model::op_sty;
use crate::model::op_supported;
use crate::model::adc_regs;
use crate::model::asl_regs;
use crate::model::cmp_regs;
use crate::model::lsr_regs;
use crate::model::popped;
use crate::model::ptr_word;
use crate::model::pushed;
use crate::model::reset_state;
use crate::model::rol_regs;
use crate::model::ror_regs;
use crate::model::step_enabled;
use crate::registers::RegisterState;
use crate::registers::with_a;
use crate::registers::with_nz;
use crate::registers::with_x;
use crate::registers::with_y;

impl<V: Variant> Cpu<V> {
    /// Reset: set I, move SP down three, and load PC from the reset vector
    /// at FFFC/FFFD.  Nothing is written; the other flags and A survive.
    pub fn reset<B: Bus>(&mut self, bus: &mut B)
        requires
            old(bus).mem().len() == 0x10000,
        ensures
            machine(*final(self), final(bus).mem()) == reset_state(
                machine(*old(self), old(bus).mem()),
            ),
    {
        self.reg.i = true;
        self.sp = self.sp.wrapping_sub(3);
        self.pc = self.read_u16(bus, VECTOR_BASE, RESET_VECTOR);
    }

    /// A maskable interrupt: ignored when I is set, otherwise the
    /// interrupt sequence with B clear and the vector at FFFE/FFFF.
    pub fn irq<B: Bus>(&mut self, bus: &mut B)
        requires
            old(bus).mem().len() == 0x10000,
        ensures
            machine(*final(self), final(bus).mem()) == irq_state(
                machine(*old(self), old(bus).mem()),
            ),
    {
        if !self.reg.i {
            self.interrupt(bus, IRQ_BRK_VECTOR, false);
        }
    }

    /// A non-maskable interrupt: always the interrupt sequence with B
    /// clear and the vector at FFFA/FFFB.
    pub fn nmi<B: Bus>(&mut self, bus: &mut B)
        requires
            old(bus).mem().len() == 0x10000,
        ensures
            machine(*final(self), final(bus).mem()) == nmi_state(
                machine(*old(self), old(bus).mem()),
            ),
    {
        self.interrupt(bus, NMI_VECTOR, false);
    }

    /// One whole instruction: fetch the opcode at PC, decode it, evaluate
    /// the addressing mode, and run the operation.  The caller must hand a
    /// machine whose next opcode decodes to an implemented pairing; an
    /// unknown or unimplemented opcode has no defined step.
    pub fn step<B: Bus>(&mut self, bus: &mut B)
        requires
            old(bus).mem().len() == 0x10000,
            step_enabled::<V>(machine(*old(self), old(bus).mem())),
        ensures
            machine(*final(self), final(bus).mem()) == machine_step::<V>(
                machine(*old(self), old(bus).mem()),
            ),
    {
        let opcode = self.take_u8_at_pc(bus);
        match V::decode(opcode) {
            Some((code, mode)) => {
                let input = self.execute_addressing(bus, mode);
                self.execute_operation(bus, (code, input));
            },
            None => {},
        }
    }

    /// A 16-bit little-endian read at `(high:low)` whose second byte comes
    /// from `(high:low+1)` with 8-bit wrap: the page never changes.
    fn read_u16<B: Bus>(&self, bus: &B, high: u8, low: u8) -> (r: u16)
        requires
            bus.mem().len() == 0x10000,
        ensures
            r == ptr_word(machine(*self, bus.mem()), high, low),
    {
        let addr_low: u16 = ((high as u16) << 8) | (low as u16);
        let addr_high: u16 = ((high as u16) << 8) | (low.wrapping_add(1) as u16);
        let lo = bus.read(addr_low);
        let hi = bus.read(addr_high);
        ((hi as u16) << 8) | (lo as u16)
    }

    /// The byte at PC; PC moves past it.
    fn take_u8_at_pc<B: Bus>(&mut self, bus: &B) -> (r: u8)
        requires
            bus.mem().len() == 0x10000,
        ensures
            machine(*final(self), bus.mem()) == fetched(machine(*old(self), bus.mem())).0,
            r == fetched(machine(*old(self), bus.mem())).1,
    {
        let byte = bus.read(self.pc);
        self.pc = self.pc.wrapping_add(1);
        byte
    }

    /// The little-endian word at PC; PC moves past it.
    fn take_u16_at_pc<B: Bus>(&mut self, bus: &B) -> (r: u16)
        requires
            bus.mem().len() == 0x10000,
        ensures
            machine(*final(self), bus.mem()) == fetched_word(machine(*old(self), bus.mem())).0,
            r == fetched_word(machine(*old(self), bus.mem())).1,
    {
        let lo = self.take_u8_at_pc(bus);
        let hi = self.take_u8_at_pc(bus);
        ((hi as u16) << 8) | (lo as u16)
    }

    /// Push one byte: it lands at `0x0100 | SP` and SP moves down one.
    pub fn stack_push<B: Bus>(&mut self, bus: &mut B, value: u8)
        requires
            old(bus).mem().len() == 0x10000,
        ensures
            machine(*final(self), final(bus).mem()) == pushed(
                machine(*old(self), old(bus).mem()),
                value,
            ),
    {
        let addr: u16 = ((0x01u8 as u16) << 8) | (self.sp as u16);
        bus.write(addr, value);
        self.sp = self.sp.wrapping_sub(1);
    }

    /// Pop one byte: SP moves up one and the byte comes from the new
    /// `0x0100 | SP`.
    pub fn stack_pop<B: Bus>(&mut self, bus: &B) -> (r: u8)
        requires
            bus.mem().len() == 0x10000,
        ensures
            machine(*final(self), bus.mem()) == popped(machine(*old(self), bus.mem())).0,
            r == popped(machine(*old(self), bus.mem())).1,
    {
        self.sp = self.sp.wrapping_add(1);
        let addr: u16 = ((0x01u8 as u16) << 8) | (self.sp as u16);
        bus.read(addr)
    }

    /// The interrupt sequence: push PC high then low, push the status byte
    /// with B set to `brk`, set I, and load PC from `(FF:vector)`.
    fn interrupt<B: Bus>(&mut self, bus: &mut B, vector: u8, brk: bool)
        requires
            old(bus).mem().len() == 0x10000,
        ensures
            machine(*final(self), final(bus).mem()) == interrupt_sequence(
                machine(*old(self), old(bus).mem()),
                vector,
                brk,
            ),
    {
        let pc = self.pc;
        proof {
            assert(pc >> 8 < 256 && pc & 0xFF < 256) by (bit_vector);
        }
        let pc_high = (pc >> 8) as u8;
        let pc_low = (pc & 0xFF) as u8;
        self.stack_push(bus, pc_high);
        self.stack_push(bus, pc_low);
        let status = self.reg.get_status(brk);
        self.stack_push(bus, status);
        self.reg.i = true;
        self.pc = self.read_u16(bus, VECTOR_BASE, vector);
    }

    /// Addressing-mode evaluation: consume the operand bytes at PC and
    /// produce the operation's input.  Only PC moves; nothing is written.
    pub fn execute_addressing<B: Bus>(&mut self, bus: &B, am: AddressingMode) -> (input:
        OperationInput)
        requires
            bus.mem().len() == 0x10000,
        ensures
            machine(*final(self), bus.mem()) == eval_addressing(
                machine(*old(self), bus.mem()),
                am,
            ).0,
            input == eval_addressing(machine(*old(self), bus.mem()), am).1,
    {
        match am {
            AddressingMode::ACC | AddressingMode::IMP => OperationInput::IMP,
            AddressingMode::IMM => {
                let val = self.take_u8_at_pc(bus);
                OperationInput::IMM(val)
            },
            AddressingMode::ZPG => {
                let addr = self.take_u8_at_pc(bus) as u16;
                OperationInput::ADR(addr)
            },
            AddressingMode::ZPX => {
                let addr = self.take_u8_at_pc(bus).wrapping_add(self.reg.get_x()) as u16;
                OperationInput::ADR(addr)
            },
            AddressingMode::ZPY => {
                let addr = self.take_u8_at_pc(bus).wrapping_add(self.reg.get_y()) as u16;
                OperationInput::ADR(addr)
            },
            AddressingMode::REL => {
                let offset = self.take_u8_at_pc(bus) as i8 as u16;
                OperationInput::REL(offset)
            },
            AddressingMode::ABS => {
                let addr = self.take_u16_at_pc(bus);
                OperationInput::ADR(addr)
            },
            AddressingMode::ABX => {
                let addr = self.take_u16_at_pc(bus).wrapping_add(self.reg.get_x() as u16);
                OperationInput::ADR(addr)
            },
            AddressingMode::ABY => {
                let addr = self.take_u16_at_pc(bus).wrapping_add(self.reg.get_y() as u16);
                OperationInput::ADR(addr)
            },
            AddressingMode::IND => {
                let low = self.take_u8_at_pc(bus);
                let high = self.take_u8_at_pc(bus);
                let addr = self.read_u16(bus, high, low);
                OperationInput::ADR(addr)
            },
            AddressingMode::INX => {
                let low = self.take_u8_at_pc(bus).wrapping_add(self.reg.get_x());
                let addr = self.read_u16(bus, 0, low);
                OperationInput::ADR(addr)
            },
            AddressingMode::INY => {
                let low = self.take_u8_at_pc(bus);
                let base = self.read_u16(bus, 0, low);
                let addr = base.wrapping_add(self.reg.get_y() as u16);
                OperationInput::ADR(addr)
            },
        }
    }

    /// Dispatch one decoded instruction to its handler.  The pairing must
    /// be one the executor implements (`op_supported`).
    pub fn execute_operation<B: Bus>(&mut self, bus: &mut B, instruction: Instruction)
        requires
            old(bus).mem().len() == 0x10000,
            op_supported(instruction.0, instruction.1),
        ensures
            machine(*final(self), final(bus).mem()) == exec_instruction(
                machine(*old(self), old(bus).mem()),
                instruction.0,
                instruction.1,
            ),
    {
        match instruction {
            (InstructionCode::ADC, OperationInput::IMM(val)) => self.adc_imm(val),
            (InstructionCode::ADC, OperationInput::ADR(addr)) => self.adc_adr(bus, addr),
            (InstructionCode::AND, OperationInput::IMM(val)) => self.and_imm(val),
            (InstructionCode::AND, OperationInput::ADR(addr)) => self.and_adr(bus, addr),
            (InstructionCode::ASL, OperationInput::IMP) => self.asl_imp(),
            (InstructionCode::ASL, OperationInput::ADR(addr)) => self.asl_adr(bus, addr),
            (InstructionCode::BCC, OperationInput::REL(offset)) => self.bcc(offset),
            (InstructionCode::BCS, OperationInput::REL(offset)) => self.bcs(offset),
            (InstructionCode::BEQ, OperationInput::REL(offset)) => self.beq(offset),
            (InstructionCode::BIT, OperationInput::ADR(addr)) => self.bit(bus, addr),
            (InstructionCode::BMI, OperationInput::REL(offset)) => self.bmi(offset),
            (InstructionCode::BNE, OperationInput::REL(offset)) => self.bne(offset),
            (InstructionCode::BPL, OperationInput::REL(offset)) => self.bpl(offset),
            (InstructionCode::BRK, OperationInput::IMP) => self.brk(bus),
            (InstructionCode::BVC, OperationInput::REL(offset)) => self.bvc(offset),
            (InstructionCode::BVS, OperationInput::REL(offset)) => self.bvs(offset),
            (InstructionCode::CLC, OperationInput::IMP) => self.clc(),
            (InstructionCode::CLD, OperationInput::IMP) => self.cld(),
            (InstructionCode::CLI, OperationInput::IMP) => self.cli(),
            (InstructionCode::CLV, OperationInput::IMP) => self.clv(),
            (InstructionCode::CMP, OperationInput::IMM(val)) => self.cmp_imm(val),
            (InstructionCode::CMP, OperationInput::ADR(addr)) => self.cmp_adr(bus, addr),
            (InstructionCode::CPX, OperationInput::IMM(val)) => self.cpx_imm(val),
            (InstructionCode::CPX, OperationInput::ADR(addr)) => self.cpx_adr(bus, addr),
            (InstructionCode::CPY, OperationInput::IMM(val)) => self.cpy_imm(val),
            (InstructionCode::CPY, OperationInput::ADR(addr)) => self.cpy_adr(bus, addr),
            (InstructionCode::DEC, OperationInput::ADR(addr)) => self.dec(bus, addr),
            (InstructionCode::DEX, OperationInput::IMP) => self.dex(),
            (InstructionCode::DEY, OperationInput::IMP) => self.dey(),
            (InstructionCode::EOR, OperationInput::IMM(val)) => self.eor_imm(val),
            (InstructionCode::EOR, OperationInput::ADR(addr)) => self.eor_adr(bus, addr),
            (InstructionCode::INC, OperationInput::ADR(addr)) => self.inc(bus, addr),
            (InstructionCode::INX, OperationInput::IMP) => self.inx(),
            (InstructionCode::INY, OperationInput::IMP) => self.iny(),
            (InstructionCode::JMP, OperationInput::ADR(addr)) => self.jmp(addr),
            (InstructionCode::JSR, OperationInput::ADR(addr)) => self.jsr(bus, addr),
            (InstructionCode::LDA, OperationInput::IMM(val)) => self.lda_imm(val),
            (InstructionCode::LDA, OperationInput::ADR(addr)) => self.lda_adr(bus, addr),
            (InstructionCode::LDX, OperationInput::IMM(val)) => self.ldx_imm(val),
            (InstructionCode::LDX, OperationInput::ADR(addr)) => self.ldx_adr(bus, addr),
            (InstructionCode::LDY, OperationInput::IMM(val)) => self.ldy_imm(val),
            (InstructionCode::LDY, OperationInput::ADR(addr)) => self.ldy_adr(bus, addr),
            (InstructionCode::LSR, OperationInput::IMP) => self.lsr_imp(),
            (InstructionCode::LSR, OperationInput::ADR(addr)) => self.lsr_adr(bus, addr),
            (InstructionCode::NOP, OperationInput::IMP) => self.nop(),
            (InstructionCode::ORA, OperationInput::IMM(val)) => self.ora_imm(val),
            (InstructionCode::ORA, OperationInput::ADR(addr)) => self.ora_adr(bus, addr),
            (InstructionCode::PHA, OperationInput::IMP) => self.pha(bus),
            (InstructionCode::PHP, OperationInput::IMP) => self.php(bus),
            (InstructionCode::PLA, OperationInput::IMP) => self.pla(bus),
            (InstructionCode::PLP, OperationInput::IMP) => self.plp(bus),
            (InstructionCode::ROL, OperationInput::IMP) => self.rol_imp(),
            (InstructionCode::ROL, OperationInput::ADR(addr)) => self.rol_adr(bus, addr),
            (InstructionCode::ROR, OperationInput::IMP) => self.ror_imp(),
            (InstructionCode::ROR, OperationInput::ADR(addr)) => self.ror_adr(bus, addr),
            (InstructionCode::RTI, OperationInput::IMP) => self.rti(bus),
            (InstructionCode::RTS, OperationInput::IMP) => self.rts(bus),
            (InstructionCode::SBC, OperationInput::IMM(val)) => self.sbc_imm(val),
            (InstructionCode::SBC, OperationInput::ADR(addr)) => self.sbc_adr(bus, addr),
            (InstructionCode::SEC, OperationInput::IMP) => self.sec(),
            (InstructionCode::SED, OperationInput::IMP) => self.sed(),
            (InstructionCode::SEI, OperationInput::IMP) => self.sei(),
            (InstructionCode::STA, OperationInput::ADR(addr)) => self.sta(bus, addr),
            (InstructionCode::STX, OperationInput::ADR(addr)) => self.stx(bus, addr),
            (InstructionCode::STY, OperationInput::ADR(addr)) => self.sty(bus, addr),
            (InstructionCode::TAX, OperationInput::IMP) => self.tax(),
            (InstructionCode::TAY, OperationInput::IMP) => self.tay(),
            (InstructionCode::TSX, OperationInput::IMP) => self.tsx(),
            (InstructionCode::TXA, OperationInput::IMP) => self.txa(),
            (InstructionCode::TXS, OperationInput::IMP) => self.txs(),
            (InstructionCode::TYA, OperationInput::IMP) => self.tya(),
            _ => {},
        }
    }

    /// Add with carry: C from the 9-bit sum, V from signed overflow, A the
    /// low 8 bits, N and Z from A.  Decimal mode is not interpreted.
    pub fn adc_imm(&mut self, value: u8)
        ensures
            final(self).reg == adc_regs(old(self).reg, value),
            final(self).pc == old(self).pc,
            final(self).sp == old(self).sp,
    {
        let a = self.reg.get_a();
        let carry: u16 = if self.reg.c {
            1
        } else {
            0
        };
        let result: u16 = a as u16 + value as u16 + carry;
        let seven_bit_result: u16 = (a & 0x7F) as u16 + (value & 0x7F) as u16 + carry;
        let carry_out = result > 0xFF;
        let seven_bit_carry_out = seven_bit_result > 0x7F;
        self.reg.c = carry_out;
        self.reg.v = carry_out != seven_bit_carry_out;
        self.reg.update_a((result % 256) as u8);
    }

    pub fn adc_adr<B: Bus>(&mut self, bus: &B, addr: u16)
        requires
            bus.mem().len() == 0x10000,
        ensures
            final(self).reg == adc_regs(old(self).reg, bus.mem()[addr as int]),
            final(self).pc == old(self).pc,
            final(self).sp == old(self).sp,
    {
        let value = bus.read(addr);
        self.adc_imm(value);
    }

    /// Subtract with carry is add-with-carry of the one's complement.
    pub fn sbc_imm(&mut self, value: u8)
        ensures
            final(self).reg == adc_regs(old(self).reg, value ^ 0xFF),
            final(self).pc == old(self).pc,
            final(self).sp == old(self).sp,
    {
        self.adc_imm(value ^ 0xFF);
    }

    pub fn sbc_adr<B: Bus>(&mut self, bus: &B, addr: u16)
        requires
            bus.mem().len() == 0x10000,
        ensures
            final(self).reg == adc_regs(old(self).reg, bus.mem()[addr as int] ^ 0xFF),
            final(self).pc == old(self).pc,
            final(self).sp == old(self).sp,
    {
        let value = bus.read(addr);
        self.sbc_imm(value);
    }

    pub fn and_imm(&mut self, value: u8)
        ensures
            final(self).reg == with_a(old(self).reg, old(self).reg.a & value),
            final(self).pc == old(self).pc,
            final(self).sp == old(self).sp,
    {
        self.reg.update_a(self.reg.get_a() & value);
    }

    pub fn and_adr<B: Bus>(&mut self, bus: &B, addr: u16)
        requires
            bus.mem().len() == 0x10000,
        ensures
            final(self).reg == with_a(old(self).reg, old(self).reg.a & bus.mem()[addr as int]),
            final(self).pc == old(self).pc,
            final(self).sp == old(self).sp,
    {
        let value = bus.read(addr);
        self.and_imm(value);
    }

    pub fn ora_imm(&mut self, value: u8)
        ensures
            final(self).reg == with_a(old(self).reg, old(self).reg.a | value),
            final(self).pc == old(self).pc,
            final(self).sp == old(self).sp,
    {
        self.reg.update_a(self.reg.get_a() | value);
    }

    pub fn ora_adr<B: Bus>(&mut self, bus: &B, addr: u16)
        requires
            bus.mem().len() == 0x10000,
        ensures
            final(self).reg == with_a(old(self).reg, old(self).reg.a | bus.mem()[addr as int]),
            final(self).pc == old(self).pc,
            final(self).sp == old(self).sp,
    {
        let value = bus.read(addr);
        self.ora_imm(value);
    }

    pub fn eor_imm(&mut self, value: u8)
        ensures
            final(self).reg == with_a(old(self).reg, old(self).reg.a ^ value),
            final(self).pc == old(self).pc,
            final(self).sp == old(self).sp,
    {
        self.reg.update_a(self.reg.get_a() ^ value);
    }

    pub fn eor_adr<B: Bus>(&mut self, bus: &B, addr: u16)
        requires
            bus.mem().len() == 0x10000,
        ensures
            final(self).reg == with_a(old(self).reg, old(self).reg.a ^ bus.mem()[addr as int]),
            final(self).pc == old(self).pc,
            final(self).sp == old(self).sp,
    {
        let value = bus.read(addr);
        self.eor_imm(value);
    }

    /// Shift A left: C takes bit 7, bit 0 is zero, N and Z from the result.
    pub fn asl_imp(&mut self)
        ensures
            final(self).reg == asl_regs(old(self).reg),
            final(self).pc == old(self).pc,
            final(self).sp == old(self).sp,
    {
        self.reg.c = self.reg.get_a() & 0x80 != 0;
        self.reg.update_a(self.reg.get_a() << 1);
    }

    /// Shift the byte at `addr` left in place: one read, one write.
    pub fn asl_adr<B: Bus>(&mut self, bus: &mut B, addr: u16)
        requires
            old(bus).mem().len() == 0x10000,
        ensures
            machine(*final(self), final(bus).mem()) == op_asl_mem(
                machine(*old(self), old(bus).mem()),
                addr,
            ),
    {
        let n = bus.read(addr);
        self.reg.c = n & 0x80 != 0;
        let result = n << 1;
        bus.write(addr, result);
        self.reg.update_nz_flags(result);
    }

    /// Shift A right: C takes bit 0, bit 7 is zero.
    pub fn lsr_imp(&mut self)
        ensures
            final(self).reg == lsr_regs(old(self).reg),
            final(self).pc == old(self).pc,
            final(self).sp == old(self).sp,
    {
        self.reg.c = self.reg.get_a() & 0x01 != 0;
        self.reg.update_a(self.reg.get_a() >> 1);
    }

    pub fn lsr_adr<B: Bus>(&mut self, bus: &mut B, addr: u16)
        requires
            old(bus).mem().len() == 0x10000,
        ensures
            machine(*final(self), final(bus).mem()) == op_lsr_mem(
                machine(*old(self), old(bus).mem()),
                addr,
            ),
    {
        let n = bus.read(addr);
        self.reg.c = n & 0x01 != 0;
        let result = n >> 1;
        bus.write(addr, result);
        self.reg.update_nz_flags(result);
    }

    /// Rotate A left through C: bit 0 takes the old carry, C the old bit 7.
    pub fn rol_imp(&mut self)
        ensures
            final(self).reg == rol_regs(old(self).reg),
            final(self).pc == old(self).pc,
            final(self).sp == old(self).sp,
    {
        let carry = self.reg.c;
        self.reg.c = self.reg.get_a() & 0x80 != 0;
        let low: u8 = if carry {
            1
        } else {
            0
        };
        self.reg.update_a((self.reg.get_a() << 1) | low);
    }

    pub fn rol_adr<B: Bus>(&mut self, bus: &mut B, addr: u16)
        requires
            old(bus).mem().len() == 0x10000,
        ensures
            machine(*final(self), final(bus).mem()) == op_rol_mem(
                machine(*old(self), old(bus).mem()),
                addr,
            ),
    {
        let n = bus.read(addr);
        let carry = self.reg.c;
        self.reg.c = n & 0x80 != 0;
        let low: u8 = if carry {
            1
        } else {
            0
        };
        let result = (n << 1) | low;
        bus.write(addr, result);
        self.reg.update_nz_flags(result);
    }

    /// Rotate A right through C: bit 7 takes the old carry, C the old bit 0.
    pub fn ror_imp(&mut self)
        ensures
            final(self).reg == ror_regs(old(self).reg),
            final(self).pc == old(self).pc,
            final(self).sp == old(self).sp,
    {
        let carry = self.reg.c;
        self.reg.c = self.reg.get_a() & 0x01 != 0;
        let high: u8 = if carry {
            0x80
        } else {
            0
        };
        self.reg.update_a((self.reg.get_a() >> 1) | high);
    }

    pub fn ror_adr<B: Bus>(&mut self, bus: &mut B, addr: u16)
        requires
            old(bus).mem().len() == 0x10000,
        ensures
            machine(*final(self), final(bus).mem()) == op_ror_mem(
                machine(*old(self), old(bus).mem()),
                addr,
            ),
    {
        let n = bus.read(addr);
        let carry = self.reg.c;
        self.reg.c = n & 0x01 != 0;
        let high: u8 = if carry {
            0x80
        } else {
            0
        };
        let result = (n >> 1) | high;
        bus.write(addr, result);
        self.reg.update_nz_flags(result);
    }

    pub fn bcc(&mut self, offset: u16)
        ensures
            final(self).reg == old(self).reg,
            final(self).sp == old(self).sp,
            final(self).pc == if !old(self).reg.c {
                old(self).pc.wrapping_add(offset)
            } else {
                old(self).pc
            },
    {
        if !self.reg.c {
            self.pc = self.pc.wrapping_add(offset);
        }
    }

    pub fn bcs(&mut self, offset: u16)
        ensures
            final(self).reg == old(self).reg,
            final(self).sp == old(self).sp,
            final(self).pc == if old(self).reg.c {
                old(self).pc.wrapping_add(offset)
            } else {
                old(self).pc
            },
    {
        if self.reg.c {
            self.pc = self.pc.wrapping_add(offset);
        }
    }

    pub fn beq(&mut self, offset: u16)
        ensures
            final(self).reg == old(self).reg,
            final(self).sp == old(self).sp,
            final(self).pc == if old(self).reg.z {
                old(self).pc.wrapping_add(offset)
            } else {
                old(self).pc
            },
    {
        if self.reg.z {
            self.pc = self.pc.wrapping_add(offset);
        }
    }

    pub fn bne(&mut self, offset: u16)
        ensures
            final(self).reg == old(self).reg,
            final(self).sp == old(self).sp,
            final(self).pc == if !old(self).reg.z {
                old(self).pc.wrapping_add(offset)
            } else {
                old(self).pc
            },
    {
        if !self.reg.z {
            self.pc = self.pc.wrapping_add(offset);
        }
    }

    pub fn bmi(&mut self, offset: u16)
        ensures
            final(self).reg == old(self).reg,
            final(self).sp == old(self).sp,
            final(self).pc == if old(self).reg.n {
                old(self).pc.wrapping_add(offset)
            } else {
                old(self).pc
            },
    {
        if self.reg.n {
            self.pc = self.pc.wrapping_add(offset);
        }
    }

    pub fn bpl(&mut self, offset: u16)
        ensures
            final(self).reg == old(self).reg,
            final(self).sp == old(self).sp,
            final(self).pc == if !old(self).reg.n {
                old(self).pc.wrapping_add(offset)
            } else {
                old(self).pc
            },
    {
        if !self.reg.n {
            self.pc = self.pc.wrapping_add(offset);
        }
    }

    pub fn bvs(&mut self, offset: u16)
        ensures
            final(self).reg == old(self).reg,
            final(self).sp == old(self).sp,
            final(self).pc == if old(self).reg.v {
                old(self).pc.wrapping_add(offset)
            } else {
                old(self).pc
            },
    {
        if self.reg.v {
            self.pc = self.pc.wrapping_add(offset);
        }
    }

    pub fn bvc(&mut self, offset: u16)
        ensures
            final(self).reg == old(self).reg,
            final(self).sp == old(self).sp,
            final(self).pc == if !old(self).reg.v {
                old(self).pc.wrapping_add(offset)
            } else {
                old(self).pc
            },
    {
        if !self.reg.v {
            self.pc = self.pc.wrapping_add(offset);
        }
    }

    /// BIT: Z from `A & M`, V from bit 6 of M, N from bit 7 of M; A is
    /// untouched.
    pub fn bit<B: Bus>(&mut self, bus: &B, addr: u16)
        requires
            bus.mem().len() == 0x10000,
        ensures
            ({
                let m = machine(*old(self), bus.mem());
                machine(*final(self), bus.mem()) == op_bit(m, byte_at(m, addr))
            }),
    {
        let n = bus.read(addr);
        self.reg.z = self.reg.get_a() & n == 0;
        self.reg.v = n & 0x40 != 0;
        self.reg.n = n & 0x80 != 0;
    }

    /// BRK: advance PC past the padding byte, then run the interrupt
    /// sequence with B set and the IRQ vector.
    pub fn brk<B: Bus>(&mut self, bus: &mut B)
        requires
            old(bus).mem().len() == 0x10000,
        ensures
            machine(*final(self), final(bus).mem()) == op_brk(machine(*old(self), old(bus).mem())),
    {
        self.pc = self.pc.wrapping_add(1);
        self.interrupt(bus, IRQ_BRK_VECTOR, true);
    }

    pub fn clc(&mut self)
        ensures
            final(self).reg == (RegisterState { c: false, ..old(self).reg }),
            final(self).pc == old(self).pc,
            final(self).sp == old(self).sp,
    {
        self.reg.c = false;
    }

    pub fn cld(&mut self)
        ensures
            final(self).reg == (RegisterState { d: false, ..old(self).reg }),
            final(self).pc == old(self).pc,
            final(self).sp == old(self).sp,
    {
        self.reg.d = false;
    }

    pub fn cli(&mut self)
        ensures
            final(self).reg == (RegisterState { i: false, ..old(self).reg }),
            final(self).pc == old(self).pc,
            final(self).sp == old(self).sp,
    {
        self.reg.i = false;
    }

    pub fn clv(&mut self)
        ensures
            final(self).reg == (RegisterState { v: false, ..old(self).reg }),
            final(self).pc == old(self).pc,
            final(self).sp == old(self).sp,
    {
        self.reg.v = false;
    }

    pub fn sec(&mut self)
        ensures
            final(self).reg == (RegisterState { c: true, ..old(self).reg }),
            final(self).pc == old(self).pc,
            final(self).sp == old(self).sp,
    {
        self.reg.c = true;
    }

    pub fn sed(&mut self)
        ensures
            final(self).reg == (RegisterState { d: true, ..old(self).reg }),
            final(self).pc == old(self).pc,
            final(self).sp == old(self).sp,
    {
        self.reg.d = true;
    }

    pub fn sei(&mut self)
        ensures
            final(self).reg == (RegisterState { i: true, ..old(self).reg }),
            final(self).pc == old(self).pc,
            final(self).sp == old(self).sp,
    {
        self.reg.i = true;
    }

    /// Compare A with the operand: N and Z from the wrapping difference,
    /// C exactly when `A >= operand` as unsigned; A is untouched.
    pub fn cmp_imm(&mut self, value: u8)
        ensures
            final(self).reg == cmp_regs(old(self).reg, old(self).reg.a, value),
            final(self).pc == old(self).pc,
            final(self).sp == old(self).sp,
    {
        self.reg.update_nz_flags(self.reg.get_a().wrapping_sub(value));
        self.reg.c = self.reg.get_a() >= value;
    }

    pub fn cmp_adr<B: Bus>(&mut self, bus: &B, addr: u16)
        requires
            bus.mem().len() == 0x10000,
        ensures
            final(self).reg == cmp_regs(old(self).reg, old(self).reg.a, bus.mem()[addr as int]),
            final(self).pc == old(self).pc,
            final(self).sp == old(self).sp,
    {
        let value = bus.read(addr);
        self.cmp_imm(value);
    }

    pub fn cpx_imm(&mut self, value: u8)
        ensures
            final(self).reg == cmp_regs(old(self).reg, old(self).reg.x, value),
            final(self).pc == old(self).pc,
            final(self).sp == old(self).sp,
    {
        self.reg.update_nz_flags(self.reg.get_x().wrapping_sub(value));
        self.reg.c = self.reg.get_x() >= value;
    }

    pub fn cpx_adr<B: Bus>(&mut self, bus: &B, addr: u16)
        requires
            bus.mem().len() == 0x10000,
        ensures
            final(self).reg == cmp_regs(old(self).reg, old(self).reg.x, bus.mem()[addr as int]),
            final(self).pc == old(self).pc,
            final(self).sp == old(self).sp,
    {
        let value = bus.read(addr);
        self.cpx_imm(value);
    }

    pub fn cpy_imm(&mut self, value: u8)
        ensures
            final(self).reg == cmp_regs(old(self).reg, old(self).reg.y, value),
            final(self).pc == old(self).pc,
            final(self).sp == old(self).sp,
    {
        self.reg.update_nz_flags(self.reg.get_y().wrapping_sub(value));
        self.reg.c = self.reg.get_y() >= value;
    }

    pub fn cpy_adr<B: Bus>(&mut self, bus: &B, addr: u16)
        requires
            bus.mem().len() == 0x10000,
        ensures
            final(self).reg == cmp_regs(old(self).reg, old(self).reg.y, bus.mem()[addr as int]),
            final(self).pc == old(self).pc,
            final(self).sp == old(self).sp,
    {
        let value = bus.read(addr);
        self.cpy_imm(value);
    }

    /// Decrement the byte at `addr` in place, with 8-bit wrap.
    pub fn dec<B: Bus>(&mut self, bus: &mut B, addr: u16)
        requires
            old(bus).mem().len() == 0x10000,
        ensures
            machine(*final(self), final(bus).mem()) == op_dec(
                machine(*old(self), old(bus).mem()),
                addr,
            ),
    {
        let n = bus.read(addr);
        let result = n.wrapping_sub(1);
        bus.write(addr, result);
        self.reg.update_nz_flags(result);
    }

    /// Increment the byte at `addr` in place, with 8-bit wrap.
    pub fn inc<B: Bus>(&mut self, bus: &mut B, addr: u16)
        requires
            old(bus).mem().len() == 0x10000,
        ensures
            machine(*final(self), final(bus).mem()) == op_inc(
                machine(*old(self), old(bus).mem()),
                addr,
            ),
    {
        let n = bus.read(addr);
        let result = n.wrapping_add(1);
        bus.write(addr, result);
        self.reg.update_nz_flags(result);
    }

    pub fn dex(&mut self)
        ensures
            final(self).reg == with_x(old(self).reg, old(self).reg.x.wrapping_sub(1)),
            final(self).pc == old(self).pc,
            final(self).sp == old(self).sp,
    {
        self.reg.update_x(self.reg.get_x().wrapping_sub(1));
    }

    pub fn dey(&mut self)
        ensures
            final(self).reg == with_y(old(self).reg, old(self).reg.y.wrapping_sub(1)),
            final(self).pc == old(self).pc,
            final(self).sp == old(self).sp,
    {
        self.reg.update_y(self.reg.get_y().wrapping_sub(1));
    }

    pub fn inx(&mut self)
        ensures
            final(self).reg == with_x(old(self).reg, old(self).reg.x.wrapping_add(1)),
            final(self).pc == old(self).pc,
            final(self).sp == old(self).sp,
    {
        self.reg.update_x(self.reg.get_x().wrapping_add(1));
    }

    pub fn iny(&mut self)
        ensures
            final(self).reg == with_y(old(self).reg, old(self).reg.y.wrapping_add(1)),
            final(self).pc == old(self).pc,
            final(self).sp == old(self).sp,
    {
        self.reg.update_y(self.reg.get_y().wrapping_add(1));
    }

    pub fn jmp(&mut self, addr: u16)
        ensures
            final(self).reg == old(self).reg,
            final(self).sp == old(self).sp,
            final(self).pc == addr,
    {
        self.pc = addr;
    }

    /// JSR: push PC minus one (the address of the instruction's last
    /// byte), high byte first, then jump to `addr`.
    pub fn jsr<B: Bus>(&mut self, bus: &mut B, addr: u16)
        requires
            old(bus).mem().len() == 0x10000,
        ensures
            machine(*final(self), final(bus).mem()) == op_jsr(
                machine(*old(self), old(bus).mem()),
                addr,
            ),
    {
        let return_addr = self.pc.wrapping_sub(1);
        proof {
            assert(return_addr >> 8 < 256 && return_addr & 0xFF < 256) by (bit_vector);
        }
        let ret_high = (return_addr >> 8) as u8;
        let ret_low = (return_addr & 0xFF) as u8;
        self.stack_push(bus, ret_high);
        self.stack_push(bus, ret_low);
        self.pc = addr;
    }

    pub fn lda_imm(&mut self, value: u8)
        ensures
            final(self).reg == with_a(old(self).reg, value),
            final(self).pc == old(self).pc,
            final(self).sp == old(self).sp,
    {
        self.reg.update_a(value);
    }

    pub fn lda_adr<B: Bus>(&mut self, bus: &B, addr: u16)
        requires
            bus.mem().len() == 0x10000,
        ensures
            final(self).reg == with_a(old(self).reg, bus.mem()[addr as int]),
            final(self).pc == old(self).pc,
            final(self).sp == old(self).sp,
    {
        let value = bus.read(addr);
        self.lda_imm(value);
    }

    pub fn ldx_imm(&mut self, value: u8)
        ensures
            final(self).reg == with_x(old(self).reg, value),
            final(self).pc == old(self).pc,
            final(self).sp == old(self).sp,
    {
        self.reg.update_x(value);
    }

    pub fn ldx_adr<B: Bus>(&mut self, bus: &B, addr: u16)
        requires
            bus.mem().len() == 0x10000,
        ensures
            final(self).reg == with_x(old(self).reg, bus.mem()[addr as int]),
            final(self).pc == old(self).pc,
            final(self).sp == old(self).sp,
    {
        let value = bus.read(addr);
        self.ldx_imm(value);
    }

    pub fn ldy_imm(&mut self, value: u8)
        ensures
            final(self).reg == with_y(old(self).reg, value),
            final(self).pc == old(self).pc,
            final(self).sp == old(self).sp,
    {
        self.reg.update_y(value);
    }

    pub fn ldy_adr<B: Bus>(&mut self, bus: &B, addr: u16)
        requires
            bus.mem().len() == 0x10000,
        ensures
            final(self).reg == with_y(old(self).reg, bus.mem()[addr as int]),
            final(self).pc == old(self).pc,
            final(self).sp == old(self).sp,
    {
        let value = bus.read(addr);
        self.ldy_imm(value);
    }

    pub fn nop(&self) {
    }

    pub fn pha<B: Bus>(&mut self, bus: &mut B)
        requires
            old(bus).mem().len() == 0x10000,
        ensures
            machine(*final(self), final(bus).mem()) == op_pha(machine(*old(self), old(bus).mem())),
    {
        let a = self.reg.get_a();
        self.stack_push(bus, a);
    }

    /// PHP pushes the status byte with the B bit set — the documented
    /// NMOS behaviour for a software push.
    pub fn php<B: Bus>(&mut self, bus: &mut B)
        requires
            old(bus).mem().len() == 0x10000,
        ensures
            machine(*final(self), final(bus).mem()) == op_php(machine(*old(self), old(bus).mem())),
    {
        let status = self.reg.get_status(true);
        self.stack_push(bus, status);
    }

    pub fn pla<B: Bus>(&mut self, bus: &B)
        requires
            bus.mem().len() == 0x10000,
        ensures
            machine(*final(self), bus.mem()) == op_pla(machine(*old(self), bus.mem())),
    {
        let value = self.stack_pop(bus);
        self.reg.update_a(value);
    }

    /// PLP loads C, Z, I, D, V, N from the popped byte; its bits 4 and 5
    /// are discarded.
    pub fn plp<B: Bus>(&mut self, bus: &B)
        requires
            bus.mem().len() == 0x10000,
        ensures
            machine(*final(self), bus.mem()) == op_plp(machine(*old(self), bus.mem())),
    {
        let status = self.stack_pop(bus);
        self.reg.set_status(status);
    }

    /// RTI: pop the status byte, then PC low, then PC high; nothing is
    /// added to the popped address.
    pub fn rti<B: Bus>(&mut self, bus: &B)
        requires
            bus.mem().len() == 0x10000,
        ensures
            machine(*final(self), bus.mem()) == op_rti(machine(*old(self), bus.mem())),
    {
        let status = self.stack_pop(bus);
        self.reg.set_status(status);
        let pc_low = self.stack_pop(bus);
        let pc_high = self.stack_pop(bus);
        self.pc = ((pc_high as u16) << 8) | (pc_low as u16);
    }

    /// RTS: pop low then high and resume one past the popped address.
    pub fn rts<B: Bus>(&mut self, bus: &B)
        requires
            bus.mem().len() == 0x10000,
        ensures
            machine(*final(self), bus.mem()) == op_rts(machine(*old(self), bus.mem())),
    {
        let pc_low = self.stack_pop(bus);
        let pc_high = self.stack_pop(bus);
        self.pc = (((pc_high as u16) << 8) | (pc_low as u16)).wrapping_add(1);
    }

    pub fn sta<B: Bus>(&mut self, bus: &mut B, addr: u16)
        requires
            old(bus).mem().len() == 0x10000,
        ensures
            machine(*final(self), final(bus).mem()) == op_sta(
                machine(*old(self), old(bus).mem()),
                addr,
            ),
    {
        bus.write(addr, self.reg.get_a());
    }

    pub fn stx<B: Bus>(&mut self, bus: &mut B, addr: u16)
        requires
            old(bus).mem().len() == 0x10000,
        ensures
            machine(*final(self), final(bus).mem()) == op_stx(
                machine(*old(self), old(bus).mem()),
                addr,
            ),
    {
        bus.write(addr, self.reg.get_x());
    }

    pub fn sty<B: Bus>(&mut self, bus: &mut B, addr: u16)
        requires
            old(bus).mem().len() == 0x10000,
        ensures
            machine(*final(self), final(bus).mem()) == op_sty(
                machine(*old(self), old(bus).mem()),
                addr,
            ),
    {
        bus.write(addr, self.reg.get_y());
    }

    pub fn tax(&mut self)
        ensures
            final(self).reg == with_x(old(self).reg, old(self).reg.a),
            final(self).pc == old(self).pc,
            final(self).sp == old(self).sp,
    {
        self.reg.update_x(self.reg.get_a());
    }

    pub fn tay(&mut self)
        ensures
            final(self).reg == with_y(old(self).reg, old(self).reg.a),
            final(self).pc == old(self).pc,
            final(self).sp == old(self).sp,
    {
        self.reg.update_y(self.reg.get_a());
    }

    pub fn tsx(&mut self)
        ensures
            final(self).reg == with_x(old(self).reg, old(self).sp),
            final(self).pc == old(self).pc,
            final(self).sp == old(self).sp,
    {
        self.reg.update_x(self.sp);
    }

    pub fn txa(&mut self)
        ensures
            final(self).reg == with_a(old(self).reg, old(self).reg.x),
            final(self).pc == old(self).pc,
            final(self).sp == old(self).sp,
    {
        self.reg.update_a(self.reg.get_x());
    }

    /// TXS copies X to SP without touching any flag.
    pub fn txs(&mut self)
        ensures
            final(self).reg == old(self).reg,
            final(self).pc == old(self).pc,
            final(self).sp == old(self).reg.x,
    {
        self.sp = self.reg.get_x();
    }

    pub fn tya(&mut self)
        ensures
            final(self).reg == with_a(old(self).reg, old(self).reg.y),
            final(self).pc == old(self).pc,
            final(self).sp == old(self).sp,
    {
        self.reg.update_a(self.reg.get_y());
    }
}

} // verus!
