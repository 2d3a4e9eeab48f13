//! The NMOS 6502 decode table: the 151 documented opcodes, each mapped to
//! its instruction and addressing mode; every other byte is illegal.

use vstd::prelude::*;

verus! {

use crate::Variant;
use crate::instruction::AddressingMode;
use crate::instruction::InstructionCode;

/// The NMOS variant of the processor: documented opcodes only, no decimal
/// mode, and the documented indirect-JMP page-boundary quirk.
#[derive(Debug, Clone, Copy)]
pub struct Nmos6502;

/// The NMOS decode table as a mathematical function.
pub open spec fn nmos_decode(opcode: u8) -> Option<(InstructionCode, AddressingMode)> {
    match opcode {
        0x00 => Some((InstructionCode::BRK, AddressingMode::IMP)),
        0x01 => Some((InstructionCode::ORA, AddressingMode::INX)),
        0x02 => None,
        0x03 => None,
        0x04 => None,
        0x05 => Some((InstructionCode::ORA, AddressingMode::ZPG)),
        0x06 => Some((InstructionCode::ASL, AddressingMode::ZPG)),
        0x07 => None,
        0x08 => Some((InstructionCode::PHP, AddressingMode::IMP)),
        0x09 => Some((InstructionCode::ORA, AddressingMode::IMM)),
        0x0A => Some((InstructionCode::ASL, AddressingMode::ACC)),
        0x0B => None,
        0x0C => None,
        0x0D => Some((InstructionCode::ORA, AddressingMode::ABS)),
        0x0E => Some((InstructionCode::ASL, AddressingMode::ABS)),
        0x0F => None,
        0x10 => Some((InstructionCode::BPL, AddressingMode::REL)),
        0x11 => Some((InstructionCode::ORA, AddressingMode::INY)),
        0x12 => None,
        0x13 => None,
        0x14 => None,
        0x15 => Some((InstructionCode::ORA, AddressingMode::ZPX)),
        0x16 => Some((InstructionCode::ASL, AddressingMode::ZPX)),
        0x17 => None,
        0x18 => Some((InstructionCode::CLC, AddressingMode::IMP)),
        0x19 => Some((InstructionCode::ORA, AddressingMode::ABY)),
        0x1A => None,
        0x1B => None,
        0x1C => None,
        0x1D => Some((InstructionCode::ORA, AddressingMode::ABX)),
        0x1E => Some((InstructionCode::ASL, AddressingMode::ABX)),
        0x1F => None,
        0x20 => Some((InstructionCode::JSR, AddressingMode::ABS)),
        0x21 => Some((InstructionCode::AND, AddressingMode::INX)),
        0x22 => None,
        0x23 => None,
        0x24 => Some((InstructionCode::BIT, AddressingMode::ZPG)),
        0x25 => Some((InstructionCode::AND, AddressingMode::ZPG)),
        0x26 => Some((InstructionCode::ROL, AddressingMode::ZPG)),
        0x27 => None,
        0x28 => Some((InstructionCode::PLP, AddressingMode::IMP)),
        0x29 => Some((InstructionCode::AND, AddressingMode::IMM)),
        0x2A => Some((InstructionCode::ROL, AddressingMode::ACC)),
        0x2B => None,
        0x2C => Some((InstructionCode::BIT, AddressingMode::ABS)),
        0x2D => Some((InstructionCode::AND, AddressingMode::ABS)),
        0x2E => Some((InstructionCode::ROL, AddressingMode::ABS)),
        0x2F => None,
        0x30 => Some((InstructionCode::BMI, AddressingMode::REL)),
        0x31 => Some((InstructionCode::AND, AddressingMode::INY)),
        0x32 => None,
        0x33 => None,
        0x34 => None,
        0x35 => Some((InstructionCode::AND, AddressingMode::ZPX)),
        0x36 => Some((InstructionCode::ROL, AddressingMode::ZPX)),
        0x37 => None,
        0x38 => Some((InstructionCode::SEC, AddressingMode::IMP)),
        0x39 => Some((InstructionCode::AND, AddressingMode::ABY)),
        0x3A => None,
        0x3B => None,
        0x3C => None,
        0x3D => Some((InstructionCode::AND, AddressingMode::ABX)),
        0x3E => Some((InstructionCode::ROL, AddressingMode::ABX)),
        0x3F => None,
        0x40 => Some((InstructionCode::RTI, AddressingMode::IMP)),
        0x41 => Some((InstructionCode::EOR, AddressingMode::INX)),
        0x42 => None,
        0x43 => None,
        0x44 => None,
        0x45 => Some((InstructionCode::EOR, AddressingMode::ZPG)),
        0x46 => Some((InstructionCode::LSR, AddressingMode::ZPG)),
        0x47 => None,
        0x48 => Some((InstructionCode::PHA, AddressingMode::IMP)),
        0x49 => Some((InstructionCode::EOR, AddressingMode::IMM)),
        0x4A => Some((InstructionCode::LSR, AddressingMode::ACC)),
        0x4B => None,
        0x4C => Some((InstructionCode::JMP, AddressingMode::ABS)),
        0x4D => Some((InstructionCode::EOR, AddressingMode::ABS)),
        0x4E => Some((InstructionCode::LSR, AddressingMode::ABS)),
        0x4F => None,
        0x50 => Some((InstructionCode::BVC, AddressingMode::REL)),
        0x51 => Some((InstructionCode::EOR, AddressingMode::INY)),
        0x52 => None,
        0x53 => None,
        0x54 => None,
        0x55 => Some((InstructionCode::EOR, AddressingMode::ZPX)),
        0x56 => Some((InstructionCode::LSR, AddressingMode::ZPX)),
        0x57 => None,
        0x58 => Some((InstructionCode::CLI, AddressingMode::IMP)),
        0x59 => Some((InstructionCode::EOR, AddressingMode::ABY)),
        0x5A => None,
        0x5B => None,
        0x5C => None,
        0x5D => Some((InstructionCode::EOR, AddressingMode::ABX)),
        0x5E => Some((InstructionCode::LSR, AddressingMode::ABX)),
        0x5F => None,
        0x60 => Some((InstructionCode::RTS, AddressingMode::IMP)),
        0x61 => Some((InstructionCode::ADC, AddressingMode::INX)),
        0x62 => None,
        0x63 => None,
        0x64 => None,
        0x65 => Some((InstructionCode::ADC, AddressingMode::ZPG)),
        0x66 => Some((InstructionCode::ROR, AddressingMode::ZPG)),
        0x67 => None,
        0x68 => Some((InstructionCode::PLA, AddressingMode::IMP)),
        0x69 => Some((InstructionCode::ADC, AddressingMode::IMM)),
        0x6A => Some((InstructionCode::ROR, AddressingMode::ACC)),
        0x6B => None,
        0x6C => Some((InstructionCode::JMP, AddressingMode::IND)),
        0x6D => Some((InstructionCode::ADC, AddressingMode::ABS)),
        0x6E => Some((InstructionCode::ROR, AddressingMode::ABS)),
        0x6F => None,
        0x70 => Some((InstructionCode::BVS, AddressingMode::REL)),
        0x71 => Some((InstructionCode::ADC, AddressingMode::INY)),
        0x72 => None,
        0x73 => None,
        0x74 => None,
        0x75 => Some((InstructionCode::ADC, AddressingMode::ZPX)),
        0x76 => Some((InstructionCode::ROR, AddressingMode::ZPX)),
        0x77 => None,
        0x78 => Some((InstructionCode::SEI, AddressingMode::IMP)),
        0x79 => Some((InstructionCode::ADC, AddressingMode::ABY)),
        0x7A => None,
        0x7B => None,
        0x7C => None,
        0x7D => Some((InstructionCode::ADC, AddressingMode::ABX)),
        0x7E => Some((InstructionCode::ROR, AddressingMode::ABX)),
        0x7F => None,
        0x80 => None,
        0x81 => Some((InstructionCode::STA, AddressingMode::INX)),
        0x82 => None,
        0x83 => None,
        0x84 => Some((InstructionCode::STY, AddressingMode::ZPG)),
        0x85 => Some((InstructionCode::STA, AddressingMode::ZPG)),
        0x86 => Some((InstructionCode::STX, AddressingMode::ZPG)),
        0x87 => None,
        0x88 => Some((InstructionCode::DEY, AddressingMode::IMP)),
        0x89 => None,
        0x8A => Some((InstructionCode::TXA, AddressingMode::IMP)),
        0x8B => None,
        0x8C => Some((InstructionCode::STY, AddressingMode::ABS)),
        0x8D => Some((InstructionCode::STA, AddressingMode::ABS)),
        0x8E => Some((InstructionCode::STX, AddressingMode::ABS)),
        0x8F => None,
        0x90 => Some((InstructionCode::BCC, AddressingMode::REL)),
        0x91 => Some((InstructionCode::STA, AddressingMode::INY)),
        0x92 => None,
        0x93 => None,
        0x94 => Some((InstructionCode::STY, AddressingMode::ZPX)),
        0x95 => Some((InstructionCode::STA, AddressingMode::ZPX)),
        0x96 => Some((InstructionCode::STX, AddressingMode::ZPY)),
        0x97 => None,
        0x98 => Some((InstructionCode::TYA, AddressingMode::IMP)),
        0x99 => Some((InstructionCode::STA, AddressingMode::ABY)),
        0x9A => Some((InstructionCode::TXS, AddressingMode::IMP)),
        0x9B => None,
        0x9C => None,
        0x9D => Some((InstructionCode::STA, AddressingMode::ABX)),
        0x9E => None,
        0x9F => None,
        0xA0 => Some((InstructionCode::LDY, AddressingMode::IMM)),
        0xA1 => Some((InstructionCode::LDA, AddressingMode::INX)),
        0xA2 => Some((InstructionCode::LDX, AddressingMode::IMM)),
        0xA3 => None,
        0xA4 => Some((InstructionCode::LDY, AddressingMode::ZPG)),
        0xA5 => Some((InstructionCode::LDA, AddressingMode::ZPG)),
        0xA6 => Some((InstructionCode::LDX, AddressingMode::ZPG)),
        0xA7 => None,
        0xA8 => Some((InstructionCode::TAY, AddressingMode::IMP)),
        0xA9 => Some((InstructionCode::LDA, AddressingMode::IMM)),
        0xAA => Some((InstructionCode::TAX, AddressingMode::IMP)),
        0xAB => None,
        0xAC => Some((InstructionCode::LDY, AddressingMode::ABS)),
        0xAD => Some((InstructionCode::LDA, AddressingMode::ABS)),
        0xAE => Some((InstructionCode::LDX, AddressingMode::ABS)),
        0xAF => None,
        0xB0 => Some((InstructionCode::BCS, AddressingMode::REL)),
        0xB1 => Some((InstructionCode::LDA, AddressingMode::INY)),
        0xB2 => None,
        0xB3 => None,
        0xB4 => Some((InstructionCode::LDY, AddressingMode::ZPX)),
        0xB5 => Some((InstructionCode::LDA, AddressingMode::ZPX)),
        0xB6 => Some((InstructionCode::LDX, AddressingMode::ZPY)),
        0xB7 => None,
        0xB8 => Some((InstructionCode::CLV, AddressingMode::IMP)),
        0xB9 => Some((InstructionCode::LDA, AddressingMode::ABY)),
        0xBA => Some((InstructionCode::TSX, AddressingMode::IMP)),
        0xBB => None,
        0xBC => Some((InstructionCode::LDY, AddressingMode::ABX)),
        0xBD => Some((InstructionCode::LDA, AddressingMode::ABX)),
        0xBE => Some((InstructionCode::LDX, AddressingMode::ABY)),
        0xBF => None,
        0xC0 => Some((InstructionCode::CPY, AddressingMode::IMM)),
        0xC1 => Some((InstructionCode::CMP, AddressingMode::INX)),
        0xC2 => None,
        0xC3 => None,
        0xC4 => Some((InstructionCode::CPY, AddressingMode::ZPG)),
        0xC5 => Some((InstructionCode::CMP, AddressingMode::ZPG)),
        0xC6 => Some((InstructionCode::DEC, AddressingMode::ZPG)),
        0xC7 => None,
        0xC8 => Some((InstructionCode::INY, AddressingMode::IMP)),
        0xC9 => Some((InstructionCode::CMP, AddressingMode::IMM)),
        0xCA => Some((InstructionCode::DEX, AddressingMode::IMP)),
        0xCB => None,
        0xCC => Some((InstructionCode::CPY, AddressingMode::ABS)),
        0xCD => Some((InstructionCode::CMP, AddressingMode::ABS)),
        0xCE => Some((InstructionCode::DEC, AddressingMode::ABS)),
        0xCF => None,
        0xD0 => Some((InstructionCode::BNE, AddressingMode::REL)),
        0xD1 => Some((InstructionCode::CMP, AddressingMode::INY)),
        0xD2 => None,
        0xD3 => None,
        0xD4 => None,
        0xD5 => Some((InstructionCode::CMP, AddressingMode::ZPX)),
        0xD6 => Some((InstructionCode::DEC, AddressingMode::ZPX)),
        0xD7 => None,
        0xD8 => Some((InstructionCode::CLD, AddressingMode::IMP)),
        0xD9 => Some((InstructionCode::CMP, AddressingMode::ABY)),
        0xDA => None,
        0xDB => None,
        0xDC => None,
        0xDD => Some((InstructionCode::CMP, AddressingMode::ABX)),
        0xDE => Some((InstructionCode::DEC, AddressingMode::ABX)),
        0xDF => None,
        0xE0 => Some((InstructionCode::CPX, AddressingMode::IMM)),
        0xE1 => Some((InstructionCode::SBC, AddressingMode::INX)),
        0xE2 => None,
        0xE3 => None,
        0xE4 => Some((InstructionCode::CPX, AddressingMode::ZPG)),
        0xE5 => Some((InstructionCode::SBC, AddressingMode::ZPG)),
        0xE6 => Some((InstructionCode::INC, AddressingMode::ZPG)),
        0xE7 => None,
        0xE8 => Some((InstructionCode::INX, AddressingMode::IMP)),
        0xE9 => Some((InstructionCode::SBC, AddressingMode::IMM)),
        0xEA => Some((InstructionCode::NOP, AddressingMode::IMP)),
        0xEB => None,
        0xEC => Some((InstructionCode::CPX, AddressingMode::ABS)),
        0xED => Some((InstructionCode::SBC, AddressingMode::ABS)),
        0xEE => Some((InstructionCode::INC, AddressingMode::ABS)),
        0xEF => None,
        0xF0 => Some((InstructionCode::BEQ, AddressingMode::REL)),
        0xF1 => Some((InstructionCode::SBC, AddressingMode::INY)),
        0xF2 => None,
        0xF3 => None,
        0xF4 => None,
        0xF5 => Some((InstructionCode::SBC, AddressingMode::ZPX)),
        0xF6 => Some((InstructionCode::INC, AddressingMode::ZPX)),
        0xF7 => None,
        0xF8 => Some((InstructionCode::SED, AddressingMode::IMP)),
        0xF9 => Some((InstructionCode::SBC, AddressingMode::ABY)),
        0xFA => None,
        0xFB => None,
        0xFC => None,
        0xFD => Some((InstructionCode::SBC, AddressingMode::ABX)),
        0xFE => Some((InstructionCode::INC, AddressingMode::ABX)),
        0xFF => None,
    }
}

impl Variant for Nmos6502 {
    open spec fn decode_spec(opcode: u8) -> Option<(InstructionCode, AddressingMode)> {
        nmos_decode(opcode)
    }

    fn decode(opcode: u8) -> (r: Option<(InstructionCode, AddressingMode)>) {
        match opcode {
            0x00 => Some((InstructionCode::BRK, AddressingMode::IMP)),
            0x01 => Some((InstructionCode::ORA, AddressingMode::INX)),
            0x02 => None,
            0x03 => None,
            0x04 => None,
            0x05 => Some((InstructionCode::ORA, AddressingMode::ZPG)),
            0x06 => Some((InstructionCode::ASL, AddressingMode::ZPG)),
            0x07 => None,
            0x08 => Some((InstructionCode::PHP, AddressingMode::IMP)),
            0x09 => Some((InstructionCode::ORA, AddressingMode::IMM)),
            0x0A => Some((InstructionCode::ASL, AddressingMode::ACC)),
            0x0B => None,
            0x0C => None,
            0x0D => Some((InstructionCode::ORA, AddressingMode::ABS)),
            0x0E => Some((InstructionCode::ASL, AddressingMode::ABS)),
            0x0F => None,
            0x10 => Some((InstructionCode::BPL, AddressingMode::REL)),
            0x11 => Some((InstructionCode::ORA, AddressingMode::INY)),
            0x12 => None,
            0x13 => None,
            0x14 => None,
            0x15 => Some((InstructionCode::ORA, AddressingMode::ZPX)),
            0x16 => Some((InstructionCode::ASL, AddressingMode::ZPX)),
            0x17 => None,
            0x18 => Some((InstructionCode::CLC, AddressingMode::IMP)),
            0x19 => Some((InstructionCode::ORA, AddressingMode::ABY)),
            0x1A => None,
            0x1B => None,
            0x1C => None,
            0x1D => Some((InstructionCode::ORA, AddressingMode::ABX)),
            0x1E => Some((InstructionCode::ASL, AddressingMode::ABX)),
            0x1F => None,
            0x20 => Some((InstructionCode::JSR, AddressingMode::ABS)),
            0x21 => Some((InstructionCode::AND, AddressingMode::INX)),
            0x22 => None,
            0x23 => None,
            0x24 => Some((InstructionCode::BIT, AddressingMode::ZPG)),
            0x25 => Some((InstructionCode::AND, AddressingMode::ZPG)),
            0x26 => Some((InstructionCode::ROL, AddressingMode::ZPG)),
            0x27 => None,
            0x28 => Some((InstructionCode::PLP, AddressingMode::IMP)),
            0x29 => Some((InstructionCode::AND, AddressingMode::IMM)),
            0x2A => Some((InstructionCode::ROL, AddressingMode::ACC)),
            0x2B => None,
            0x2C => Some((InstructionCode::BIT, AddressingMode::ABS)),
            0x2D => Some((InstructionCode::AND, AddressingMode::ABS)),
            0x2E => Some((InstructionCode::ROL, AddressingMode::ABS)),
            0x2F => None,
            0x30 => Some((InstructionCode::BMI, AddressingMode::REL)),
            0x31 => Some((InstructionCode::AND, AddressingMode::INY)),
            0x32 => None,
            0x33 => None,
            0x34 => None,
            0x35 => Some((InstructionCode::AND, AddressingMode::ZPX)),
            0x36 => Some((InstructionCode::ROL, AddressingMode::ZPX)),
            0x37 => None,
            0x38 => Some((InstructionCode::SEC, AddressingMode::IMP)),
            0x39 => Some((InstructionCode::AND, AddressingMode::ABY)),
            0x3A => None,
            0x3B => None,
            0x3C => None,
            0x3D => Some((InstructionCode::AND, AddressingMode::ABX)),
            0x3E => Some((InstructionCode::ROL, AddressingMode::ABX)),
            0x3F => None,
            0x40 => Some((InstructionCode::RTI, AddressingMode::IMP)),
            0x41 => Some((InstructionCode::EOR, AddressingMode::INX)),
            0x42 => None,
            0x43 => None,
            0x44 => None,
            0x45 => Some((InstructionCode::EOR, AddressingMode::ZPG)),
            0x46 => Some((InstructionCode::LSR, AddressingMode::ZPG)),
            0x47 => None,
            0x48 => Some((InstructionCode::PHA, AddressingMode::IMP)),
            0x49 => Some((InstructionCode::EOR, AddressingMode::IMM)),
            0x4A => Some((InstructionCode::LSR, AddressingMode::ACC)),
            0x4B => None,
            0x4C => Some((InstructionCode::JMP, AddressingMode::ABS)),
            0x4D => Some((InstructionCode::EOR, AddressingMode::ABS)),
            0x4E => Some((InstructionCode::LSR, AddressingMode::ABS)),
            0x4F => None,
            0x50 => Some((InstructionCode::BVC, AddressingMode::REL)),
            0x51 => Some((InstructionCode::EOR, AddressingMode::INY)),
            0x52 => None,
            0x53 => None,
            0x54 => None,
            0x55 => Some((InstructionCode::EOR, AddressingMode::ZPX)),
            0x56 => Some((InstructionCode::LSR, AddressingMode::ZPX)),
            0x57 => None,
            0x58 => Some((InstructionCode::CLI, AddressingMode::IMP)),
            0x59 => Some((InstructionCode::EOR, AddressingMode::ABY)),
            0x5A => None,
            0x5B => None,
            0x5C => None,
            0x5D => Some((InstructionCode::EOR, AddressingMode::ABX)),
            0x5E => Some((InstructionCode::LSR, AddressingMode::ABX)),
            0x5F => None,
            0x60 => Some((InstructionCode::RTS, AddressingMode::IMP)),
            0x61 => Some((InstructionCode::ADC, AddressingMode::INX)),
            0x62 => None,
            0x63 => None,
            0x64 => None,
            0x65 => Some((InstructionCode::ADC, AddressingMode::ZPG)),
            0x66 => Some((InstructionCode::ROR, AddressingMode::ZPG)),
            0x67 => None,
            0x68 => Some((InstructionCode::PLA, AddressingMode::IMP)),
            0x69 => Some((InstructionCode::ADC, AddressingMode::IMM)),
            0x6A => Some((InstructionCode::ROR, AddressingMode::ACC)),
            0x6B => None,
            0x6C => Some((InstructionCode::JMP, AddressingMode::IND)),
            0x6D => Some((InstructionCode::ADC, AddressingMode::ABS)),
            0x6E => Some((InstructionCode::ROR, AddressingMode::ABS)),
            0x6F => None,
            0x70 => Some((InstructionCode::BVS, AddressingMode::REL)),
            0x71 => Some((InstructionCode::ADC, AddressingMode::INY)),
            0x72 => None,
            0x73 => None,
            0x74 => None,
            0x75 => Some((InstructionCode::ADC, AddressingMode::ZPX)),
            0x76 => Some((InstructionCode::ROR, AddressingMode::ZPX)),
            0x77 => None,
            0x78 => Some((InstructionCode::SEI, AddressingMode::IMP)),
            0x79 => Some((InstructionCode::ADC, AddressingMode::ABY)),
            0x7A => None,
            0x7B => None,
            0x7C => None,
            0x7D => Some((InstructionCode::ADC, AddressingMode::ABX)),
            0x7E => Some((InstructionCode::ROR, AddressingMode::ABX)),
            0x7F => None,
            0x80 => None,
            0x81 => Some((InstructionCode::STA, AddressingMode::INX)),
            0x82 => None,
            0x83 => None,
            0x84 => Some((InstructionCode::STY, AddressingMode::ZPG)),
            0x85 => Some((InstructionCode::STA, AddressingMode::ZPG)),
            0x86 => Some((InstructionCode::STX, AddressingMode::ZPG)),
            0x87 => None,
            0x88 => Some((InstructionCode::DEY, AddressingMode::IMP)),
            0x89 => None,
            0x8A => Some((InstructionCode::TXA, AddressingMode::IMP)),
            0x8B => None,
            0x8C => Some((InstructionCode::STY, AddressingMode::ABS)),
            0x8D => Some((InstructionCode::STA, AddressingMode::ABS)),
            0x8E => Some((InstructionCode::STX, AddressingMode::ABS)),
            0x8F => None,
            0x90 => Some((InstructionCode::BCC, AddressingMode::REL)),
            0x91 => Some((InstructionCode::STA, AddressingMode::INY)),
            0x92 => None,
            0x93 => None,
            0x94 => Some((InstructionCode::STY, AddressingMode::ZPX)),
            0x95 => Some((InstructionCode::STA, AddressingMode::ZPX)),
            0x96 => Some((InstructionCode::STX, AddressingMode::ZPY)),
            0x97 => None,
            0x98 => Some((InstructionCode::TYA, AddressingMode::IMP)),
            0x99 => Some((InstructionCode::STA, AddressingMode::ABY)),
            0x9A => Some((InstructionCode::TXS, AddressingMode::IMP)),
            0x9B => None,
            0x9C => None,
            0x9D => Some((InstructionCode::STA, AddressingMode::ABX)),
            0x9E => None,
            0x9F => None,
            0xA0 => Some((InstructionCode::LDY, AddressingMode::IMM)),
            0xA1 => Some((InstructionCode::LDA, AddressingMode::INX)),
            0xA2 => Some((InstructionCode::LDX, AddressingMode::IMM)),
            0xA3 => None,
            0xA4 => Some((InstructionCode::LDY, AddressingMode::ZPG)),
            0xA5 => Some((InstructionCode::LDA, AddressingMode::ZPG)),
            0xA6 => Some((InstructionCode::LDX, AddressingMode::ZPG)),
            0xA7 => None,
            0xA8 => Some((InstructionCode::TAY, AddressingMode::IMP)),
            0xA9 => Some((InstructionCode::LDA, AddressingMode::IMM)),
            0xAA => Some((InstructionCode::TAX, AddressingMode::IMP)),
            0xAB => None,
            0xAC => Some((InstructionCode::LDY, AddressingMode::ABS)),
            0xAD => Some((InstructionCode::LDA, AddressingMode::ABS)),
            0xAE => Some((InstructionCode::LDX, AddressingMode::ABS)),
            0xAF => None,
            0xB0 => Some((InstructionCode::BCS, AddressingMode::REL)),
            0xB1 => Some((InstructionCode::LDA, AddressingMode::INY)),
            0xB2 => None,
            0xB3 => None,
            0xB4 => Some((InstructionCode::LDY, AddressingMode::ZPX)),
            0xB5 => Some((InstructionCode::LDA, AddressingMode::ZPX)),
            0xB6 => Some((InstructionCode::LDX, AddressingMode::ZPY)),
            0xB7 => None,
            0xB8 => Some((InstructionCode::CLV, AddressingMode::IMP)),
            0xB9 => Some((InstructionCode::LDA, AddressingMode::ABY)),
            0xBA => Some((InstructionCode::TSX, AddressingMode::IMP)),
            0xBB => None,
            0xBC => Some((InstructionCode::LDY, AddressingMode::ABX)),
            0xBD => Some((InstructionCode::LDA, AddressingMode::ABX)),
            0xBE => Some((InstructionCode::LDX, AddressingMode::ABY)),
            0xBF => None,
            0xC0 => Some((InstructionCode::CPY, AddressingMode::IMM)),
            0xC1 => Some((InstructionCode::CMP, AddressingMode::INX)),
            0xC2 => None,
            0xC3 => None,
            0xC4 => Some((InstructionCode::CPY, AddressingMode::ZPG)),
            0xC5 => Some((InstructionCode::CMP, AddressingMode::ZPG)),
            0xC6 => Some((InstructionCode::DEC, AddressingMode::ZPG)),
            0xC7 => None,
            0xC8 => Some((InstructionCode::INY, AddressingMode::IMP)),
            0xC9 => Some((InstructionCode::CMP, AddressingMode::IMM)),
            0xCA => Some((InstructionCode::DEX, AddressingMode::IMP)),
            0xCB => None,
            0xCC => Some((InstructionCode::CPY, AddressingMode::ABS)),
            0xCD => Some((InstructionCode::CMP, AddressingMode::ABS)),
            0xCE => Some((InstructionCode::DEC, AddressingMode::ABS)),
            0xCF => None,
            0xD0 => Some((InstructionCode::BNE, AddressingMode::REL)),
            0xD1 => Some((InstructionCode::CMP, AddressingMode::INY)),
            0xD2 => None,
            0xD3 => None,
            0xD4 => None,
            0xD5 => Some((InstructionCode::CMP, AddressingMode::ZPX)),
            0xD6 => Some((InstructionCode::DEC, AddressingMode::ZPX)),
            0xD7 => None,
            0xD8 => Some((InstructionCode::CLD, AddressingMode::IMP)),
            0xD9 => Some((InstructionCode::CMP, AddressingMode::ABY)),
            0xDA => None,
            0xDB => None,
            0xDC => None,
            0xDD => Some((InstructionCode::CMP, AddressingMode::ABX)),
            0xDE => Some((InstructionCode::DEC, AddressingMode::ABX)),
            0xDF => None,
            0xE0 => Some((InstructionCode::CPX, AddressingMode::IMM)),
            0xE1 => Some((InstructionCode::SBC, AddressingMode::INX)),
            0xE2 => None,
            0xE3 => None,
            0xE4 => Some((InstructionCode::CPX, AddressingMode::ZPG)),
            0xE5 => Some((InstructionCode::SBC, AddressingMode::ZPG)),
            0xE6 => Some((InstructionCode::INC, AddressingMode::ZPG)),
            0xE7 => None,
            0xE8 => Some((InstructionCode::INX, AddressingMode::IMP)),
            0xE9 => Some((InstructionCode::SBC, AddressingMode::IMM)),
            0xEA => Some((InstructionCode::NOP, AddressingMode::IMP)),
            0xEB => None,
            0xEC => Some((InstructionCode::CPX, AddressingMode::ABS)),
            0xED => Some((InstructionCode::SBC, AddressingMode::ABS)),
            0xEE => Some((InstructionCode::INC, AddressingMode::ABS)),
            0xEF => None,
            0xF0 => Some((InstructionCode::BEQ, AddressingMode::REL)),
            0xF1 => Some((InstructionCode::SBC, AddressingMode::INY)),
            0xF2 => None,
            0xF3 => None,
            0xF4 => None,
            0xF5 => Some((InstructionCode::SBC, AddressingMode::ZPX)),
            0xF6 => Some((InstructionCode::INC, AddressingMode::ZPX)),
            0xF7 => None,
            0xF8 => Some((InstructionCode::SED, AddressingMode::IMP)),
            0xF9 => Some((InstructionCode::SBC, AddressingMode::ABY)),
            0xFA => None,
            0xFB => None,
            0xFC => None,
            0xFD => Some((InstructionCode::SBC, AddressingMode::ABX)),
            0xFE => Some((InstructionCode::INC, AddressingMode::ABX)),
            0xFF => None,
        }
    }
}

} // verus!
