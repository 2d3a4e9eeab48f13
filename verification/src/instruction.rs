//! The vocabulary shared by the decoder, the addressing evaluator and the
//! executor: addressing modes, instruction mnemonics, and the operand a
//! mode hands to an operation.

use vstd::prelude::*;

verus! {

/// The thirteen documented addressing modes.
#[derive(Debug, Clone, Copy, PartialEq, Eq, Structural)]
pub enum AddressingMode {
    IMP,
    ACC,
    IMM,
    ZPG,
    ZPX,
    ZPY,
    REL,
    ABS,
    ABX,
    ABY,
    IND,
    INX,
    INY,
}

/// The 56 documented instruction mnemonics.
#[derive(Debug, Clone, Copy, PartialEq, Eq, Structural)]
pub enum InstructionCode {
    ADC,
    AND,
    ASL,
    BCC,
    BCS,
    BEQ,
    BIT,
    BMI,
    BNE,
    BPL,
    BRK,
    BVC,
    BVS,
    CLC,
    CLD,
    CLI,
    CLV,
    CMP,
    CPX,
    CPY,
    DEC,
    DEX,
    DEY,
    EOR,
    INC,
    INX,
    INY,
    JMP,
    JSR,
    LDA,
    LDX,
    LDY,
    LSR,
    NOP,
    ORA,
    PHA,
    PHP,
    PLA,
    PLP,
    ROL,
    ROR,
    RTI,
    RTS,
    SBC,
    SEC,
    SED,
    SEI,
    STA,
    STX,
    STY,
    TAX,
    TAY,
    TSX,
    TXA,
    TXS,
    TYA,
}

/// What addressing hands to an operation: nothing, a literal byte, a
/// sign-extended branch displacement, or an effective address.
#[derive(Debug, Clone, Copy, PartialEq, Eq, Structural)]
pub enum OperationInput {
    IMP,
    IMM(u8),
    REL(u16),
    ADR(u16),
}

/// A decoded instruction paired with its evaluated operand.
pub type Instruction = (InstructionCode, OperationInput);

/// The operand shape each addressing mode produces, with a zero payload:
/// implied and accumulator modes yield `IMP`, immediate yields `IMM`,
/// relative yields `REL`, and every other mode yields an address.
pub open spec fn spec_op_input(am: AddressingMode) -> OperationInput {
    match am {
        AddressingMode::ACC | AddressingMode::IMP => OperationInput::IMP,
        AddressingMode::IMM => OperationInput::IMM(0),
        AddressingMode::REL => OperationInput::REL(0),
        AddressingMode::ZPG | AddressingMode::ZPX | AddressingMode::ZPY | AddressingMode::ABS
            | AddressingMode::ABX | AddressingMode::ABY | AddressingMode::IND
            | AddressingMode::INX | AddressingMode::INY => OperationInput::ADR(0),
    }
}

/// The operand shape for a mode, with a zero payload.
pub fn get_op_input(am: AddressingMode) -> (r: OperationInput)
    ensures
        r == spec_op_input(am),
{
    match am {
        AddressingMode::ACC | AddressingMode::IMP => OperationInput::IMP,
        AddressingMode::IMM => OperationInput::IMM(0),
        AddressingMode::ZPG => OperationInput::ADR(0),
        AddressingMode::ZPX => OperationInput::ADR(0),
        AddressingMode::ZPY => OperationInput::ADR(0),
        AddressingMode::REL => OperationInput::REL(0),
        AddressingMode::ABS => OperationInput::ADR(0),
        AddressingMode::ABX => OperationInput::ADR(0),
        AddressingMode::ABY => OperationInput::ADR(0),
        AddressingMode::IND => OperationInput::ADR(0),
        AddressingMode::INX => OperationInput::ADR(0),
        AddressingMode::INY => OperationInput::ADR(0),
    }
}

} // verus!
