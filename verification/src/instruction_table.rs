//! The descriptor table: one entry for each of the 256 opcodes.

use vstd::prelude::*;
use crate::instruction::{AddressingMode, Instruction, InstructionType};

verus! {

/// The descriptor of `opcode`: an official instruction, KIL at 0x02, and the
/// shape of NOP for every other byte.
#[verifier::opaque]
pub open spec fn descriptor(opcode: u8) -> Instruction {
    match opcode {
        0x00 => Instruction::entry(0x00, InstructionType::BRK, AddressingMode::Implied, 7, false),
        0x01 => Instruction::entry(0x01, InstructionType::ORA, AddressingMode::IndirectX, 6, false),
        0x02 => Instruction::entry(0x02, InstructionType::KIL, AddressingMode::Implied, 2, false),
        0x05 => Instruction::entry(0x05, InstructionType::ORA, AddressingMode::ZeroPage, 3, false),
        0x06 => Instruction::entry(0x06, InstructionType::ASL, AddressingMode::ZeroPage, 5, false),
        0x08 => Instruction::entry(0x08, InstructionType::PHP, AddressingMode::Implied, 3, false),
        0x09 => Instruction::entry(0x09, InstructionType::ORA, AddressingMode::Immediate, 2, false),
        0x0A => Instruction::entry(0x0A, InstructionType::ASL, AddressingMode::Accumulator, 2, false),
        0x0D => Instruction::entry(0x0D, InstructionType::ORA, AddressingMode::Absolute, 4, false),
        0x0E => Instruction::entry(0x0E, InstructionType::ASL, AddressingMode::Absolute, 6, false),
        0x10 => Instruction::entry(0x10, InstructionType::BPL, AddressingMode::Relative, 2, true),
        0x11 => Instruction::entry(0x11, InstructionType::ORA, AddressingMode::IndirectY, 5, true),
        0x15 => Instruction::entry(0x15, InstructionType::ORA, AddressingMode::ZeroPageX, 4, false),
        0x16 => Instruction::entry(0x16, InstructionType::ASL, AddressingMode::ZeroPageX, 6, false),
        0x18 => Instruction::entry(0x18, InstructionType::CLC, AddressingMode::Implied, 2, false),
        0x19 => Instruction::entry(0x19, InstructionType::ORA, AddressingMode::AbsoluteY, 4, true),
        0x1D => Instruction::entry(0x1D, InstructionType::ORA, AddressingMode::AbsoluteX, 4, true),
        0x1E => Instruction::entry(0x1E, InstructionType::ASL, AddressingMode::AbsoluteX, 7, false),
        0x20 => Instruction::entry(0x20, InstructionType::JSR, AddressingMode::Absolute, 6, false),
        0x21 => Instruction::entry(0x21, InstructionType::AND, AddressingMode::IndirectX, 6, false),
        0x24 => Instruction::entry(0x24, InstructionType::BIT, AddressingMode::ZeroPage, 3, false),
        0x25 => Instruction::entry(0x25, InstructionType::AND, AddressingMode::ZeroPage, 3, false),
        0x26 => Instruction::entry(0x26, InstructionType::ROL, AddressingMode::ZeroPage, 5, false),
        0x28 => Instruction::entry(0x28, InstructionType::PLP, AddressingMode::Implied, 4, false),
        0x29 => Instruction::entry(0x29, InstructionType::AND, AddressingMode::Immediate, 2, false),
        0x2A => Instruction::entry(0x2A, InstructionType::ROL, AddressingMode::Accumulator, 2, false),
        0x2C => Instruction::entry(0x2C, InstructionType::BIT, AddressingMode::Absolute, 4, false),
        0x2D => Instruction::entry(0x2D, InstructionType::AND, AddressingMode::Absolute, 4, false),
        0x2E => Instruction::entry(0x2E, InstructionType::ROL, AddressingMode::Absolute, 6, false),
        0x30 => Instruction::entry(0x30, InstructionType::BMI, AddressingMode::Relative, 2, true),
        0x31 => Instruction::entry(0x31, InstructionType::AND, AddressingMode::IndirectY, 5, true),
        0x35 => Instruction::entry(0x35, InstructionType::AND, AddressingMode::ZeroPageX, 4, false),
        0x36 => Instruction::entry(0x36, InstructionType::ROL, AddressingMode::ZeroPageX, 6, false),
        0x38 => Instruction::entry(0x38, InstructionType::SEC, AddressingMode::Implied, 2, false),
        0x39 => Instruction::entry(0x39, InstructionType::AND, AddressingMode::AbsoluteY, 4, true),
        0x3D => Instruction::entry(0x3D, InstructionType::AND, AddressingMode::AbsoluteX, 4, true),
        0x3E => Instruction::entry(0x3E, InstructionType::ROL, AddressingMode::AbsoluteX, 7, false),
        0x40 => Instruction::entry(0x40, InstructionType::RTI, AddressingMode::Implied, 6, false),
        0x41 => Instruction::entry(0x41, InstructionType::EOR, AddressingMode::IndirectX, 6, false),
        0x45 => Instruction::entry(0x45, InstructionType::EOR, AddressingMode::ZeroPage, 3, false),
        0x46 => Instruction::entry(0x46, InstructionType::LSR, AddressingMode::ZeroPage, 5, false),
        0x48 => Instruction::entry(0x48, InstructionType::PHA, AddressingMode::Implied, 3, false),
        0x49 => Instruction::entry(0x49, InstructionType::EOR, AddressingMode::Immediate, 2, false),
        0x4A => Instruction::entry(0x4A, InstructionType::LSR, AddressingMode::Accumulator, 2, false),
        0x4C => Instruction::entry(0x4C, InstructionType::JMP, AddressingMode::Absolute, 3, false),
        0x4D => Instruction::entry(0x4D, InstructionType::EOR, AddressingMode::Absolute, 4, false),
        0x4E => Instruction::entry(0x4E, InstructionType::LSR, AddressingMode::Absolute, 6, false),
        0x50 => Instruction::entry(0x50, InstructionType::BVC, AddressingMode::Relative, 2, true),
        0x51 => Instruction::entry(0x51, InstructionType::EOR, AddressingMode::IndirectY, 5, true),
        0x55 => Instruction::entry(0x55, InstructionType::EOR, AddressingMode::ZeroPageX, 4, false),
        0x56 => Instruction::entry(0x56, InstructionType::LSR, AddressingMode::ZeroPageX, 6, false),
        0x58 => Instruction::entry(0x58, InstructionType::CLI, AddressingMode::Implied, 2, false),
        0x59 => Instruction::entry(0x59, InstructionType::EOR, AddressingMode::AbsoluteY, 4, true),
        0x5D => Instruction::entry(0x5D, InstructionType::EOR, AddressingMode::AbsoluteX, 4, true),
        0x5E => Instruction::entry(0x5E, InstructionType::LSR, AddressingMode::AbsoluteX, 7, false),
        0x60 => Instruction::entry(0x60, InstructionType::RTS, AddressingMode::Implied, 6, false),
        0x61 => Instruction::entry(0x61, InstructionType::ADC, AddressingMode::IndirectX, 6, false),
        0x65 => Instruction::entry(0x65, InstructionType::ADC, AddressingMode::ZeroPage, 3, false),
        0x66 => Instruction::entry(0x66, InstructionType::ROR, AddressingMode::ZeroPage, 5, false),
        0x68 => Instruction::entry(0x68, InstructionType::PLA, AddressingMode::Implied, 4, false),
        0x69 => Instruction::entry(0x69, InstructionType::ADC, AddressingMode::Immediate, 2, false),
        0x6A => Instruction::entry(0x6A, InstructionType::ROR, AddressingMode::Accumulator, 2, false),
        0x6C => Instruction::entry(0x6C, InstructionType::JMP, AddressingMode::Indirect, 5, false),
        0x6D => Instruction::entry(0x6D, InstructionType::ADC, AddressingMode::Absolute, 4, false),
        0x6E => Instruction::entry(0x6E, InstructionType::ROR, AddressingMode::Absolute, 6, false),
        0x70 => Instruction::entry(0x70, InstructionType::BVS, AddressingMode::Relative, 2, true),
        0x71 => Instruction::entry(0x71, InstructionType::ADC, AddressingMode::IndirectY, 5, true),
        0x75 => Instruction::entry(0x75, InstructionType::ADC, AddressingMode::ZeroPageX, 4, false),
        0x76 => Instruction::entry(0x76, InstructionType::ROR, AddressingMode::ZeroPageX, 6, false),
        0x78 => Instruction::entry(0x78, InstructionType::SEI, AddressingMode::Implied, 2, false),
        0x79 => Instruction::entry(0x79, InstructionType::ADC, AddressingMode::AbsoluteY, 4, true),
        0x7D => Instruction::entry(0x7D, InstructionType::ADC, AddressingMode::AbsoluteX, 4, true),
        0x7E => Instruction::entry(0x7E, InstructionType::ROR, AddressingMode::AbsoluteX, 7, false),
        0x81 => Instruction::entry(0x81, InstructionType::STA, AddressingMode::IndirectX, 6, false),
        0x84 => Instruction::entry(0x84, InstructionType::STY, AddressingMode::ZeroPage, 3, false),
        0x85 => Instruction::entry(0x85, InstructionType::STA, AddressingMode::ZeroPage, 3, false),
        0x86 => Instruction::entry(0x86, InstructionType::STX, AddressingMode::ZeroPage, 3, false),
        0x88 => Instruction::entry(0x88, InstructionType::DEY, AddressingMode::Implied, 2, false),
        0x8A => Instruction::entry(0x8A, InstructionType::TXA, AddressingMode::Implied, 2, false),
        0x8C => Instruction::entry(0x8C, InstructionType::STY, AddressingMode::Absolute, 4, false),
        0x8D => Instruction::entry(0x8D, InstructionType::STA, AddressingMode::Absolute, 4, false),
        0x8E => Instruction::entry(0x8E, InstructionType::STX, AddressingMode::Absolute, 4, false),
        0x90 => Instruction::entry(0x90, InstructionType::BCC, AddressingMode::Relative, 2, true),
        0x91 => Instruction::entry(0x91, InstructionType::STA, AddressingMode::IndirectY, 6, false),
        0x94 => Instruction::entry(0x94, InstructionType::STY, AddressingMode::ZeroPageX, 4, false),
        0x95 => Instruction::entry(0x95, InstructionType::STA, AddressingMode::ZeroPageX, 4, false),
        0x96 => Instruction::entry(0x96, InstructionType::STX, AddressingMode::ZeroPageY, 4, false),
        0x98 => Instruction::entry(0x98, InstructionType::TYA, AddressingMode::Implied, 2, false),
        0x99 => Instruction::entry(0x99, InstructionType::STA, AddressingMode::AbsoluteY, 5, false),
        0x9A => Instruction::entry(0x9A, InstructionType::TXS, AddressingMode::Implied, 2, false),
        0x9D => Instruction::entry(0x9D, InstructionType::STA, AddressingMode::AbsoluteX, 5, false),
        0xA0 => Instruction::entry(0xA0, InstructionType::LDY, AddressingMode::Immediate, 2, false),
        0xA1 => Instruction::entry(0xA1, InstructionType::LDA, AddressingMode::IndirectX, 6, false),
        0xA2 => Instruction::entry(0xA2, InstructionType::LDX, AddressingMode::Immediate, 2, false),
        0xA4 => Instruction::entry(0xA4, InstructionType::LDY, AddressingMode::ZeroPage, 3, false),
        0xA5 => Instruction::entry(0xA5, InstructionType::LDA, AddressingMode::ZeroPage, 3, false),
        0xA6 => Instruction::entry(0xA6, InstructionType::LDX, AddressingMode::ZeroPage, 3, false),
        0xA8 => Instruction::entry(0xA8, InstructionType::TAY, AddressingMode::Implied, 2, false),
        0xA9 => Instruction::entry(0xA9, InstructionType::LDA, AddressingMode::Immediate, 2, false),
        0xAA => Instruction::entry(0xAA, InstructionType::TAX, AddressingMode::Implied, 2, false),
        0xAC => Instruction::entry(0xAC, InstructionType::LDY, AddressingMode::Absolute, 4, false),
        0xAD => Instruction::entry(0xAD, InstructionType::LDA, AddressingMode::Absolute, 4, false),
        0xAE => Instruction::entry(0xAE, InstructionType::LDX, AddressingMode::Absolute, 4, false),
        0xB0 => Instruction::entry(0xB0, InstructionType::BCS, AddressingMode::Relative, 2, true),
        0xB1 => Instruction::entry(0xB1, InstructionType::LDA, AddressingMode::IndirectY, 5, true),
        0xB4 => Instruction::entry(0xB4, InstructionType::LDY, AddressingMode::ZeroPageX, 4, false),
        0xB5 => Instruction::entry(0xB5, InstructionType::LDA, AddressingMode::ZeroPageX, 4, false),
        0xB6 => Instruction::entry(0xB6, InstructionType::LDX, AddressingMode::ZeroPageY, 4, false),
        0xB8 => Instruction::entry(0xB8, InstructionType::CLV, AddressingMode::Implied, 2, false),
        0xB9 => Instruction::entry(0xB9, InstructionType::LDA, AddressingMode::AbsoluteY, 4, true),
        0xBA => Instruction::entry(0xBA, InstructionType::TSX, AddressingMode::Implied, 2, false),
        0xBC => Instruction::entry(0xBC, InstructionType::LDY, AddressingMode::AbsoluteX, 4, true),
        0xBD => Instruction::entry(0xBD, InstructionType::LDA, AddressingMode::AbsoluteX, 4, true),
        0xBE => Instruction::entry(0xBE, InstructionType::LDX, AddressingMode::AbsoluteY, 4, true),
        0xC0 => Instruction::entry(0xC0, InstructionType::CPY, AddressingMode::Immediate, 2, false),
        0xC1 => Instruction::entry(0xC1, InstructionType::CMP, AddressingMode::IndirectX, 6, false),
        0xC4 => Instruction::entry(0xC4, InstructionType::CPY, AddressingMode::ZeroPage, 3, false),
        0xC5 => Instruction::entry(0xC5, InstructionType::CMP, AddressingMode::ZeroPage, 3, false),
        0xC6 => Instruction::entry(0xC6, InstructionType::DEC, AddressingMode::ZeroPage, 5, false),
        0xC8 => Instruction::entry(0xC8, InstructionType::INY, AddressingMode::Implied, 2, false),
        0xC9 => Instruction::entry(0xC9, InstructionType::CMP, AddressingMode::Immediate, 2, false),
        0xCA => Instruction::entry(0xCA, InstructionType::DEX, AddressingMode::Implied, 2, false),
        0xCC => Instruction::entry(0xCC, InstructionType::CPY, AddressingMode::Absolute, 4, false),
        0xCD => Instruction::entry(0xCD, InstructionType::CMP, AddressingMode::Absolute, 4, false),
        0xCE => Instruction::entry(0xCE, InstructionType::DEC, AddressingMode::Absolute, 6, false),
        0xD0 => Instruction::entry(0xD0, InstructionType::BNE, AddressingMode::Relative, 2, true),
        0xD1 => Instruction::entry(0xD1, InstructionType::CMP, AddressingMode::IndirectY, 5, true),
        0xD5 => Instruction::entry(0xD5, InstructionType::CMP, AddressingMode::ZeroPageX, 4, false),
        0xD6 => Instruction::entry(0xD6, InstructionType::DEC, AddressingMode::ZeroPageX, 6, false),
        0xD8 => Instruction::entry(0xD8, InstructionType::CLD, AddressingMode::Implied, 2, false),
        0xD9 => Instruction::entry(0xD9, InstructionType::CMP, AddressingMode::AbsoluteY, 4, true),
        0xDD => Instruction::entry(0xDD, InstructionType::CMP, AddressingMode::AbsoluteX, 4, true),
        0xDE => Instruction::entry(0xDE, InstructionType::DEC, AddressingMode::AbsoluteX, 7, false),
        0xE0 => Instruction::entry(0xE0, InstructionType::CPX, AddressingMode::Immediate, 2, false),
        0xE1 => Instruction::entry(0xE1, InstructionType::SBC, AddressingMode::IndirectX, 6, false),
        0xE4 => Instruction::entry(0xE4, InstructionType::CPX, AddressingMode::ZeroPage, 3, false),
        0xE5 => Instruction::entry(0xE5, InstructionType::SBC, AddressingMode::ZeroPage, 3, false),
        0xE6 => Instruction::entry(0xE6, InstructionType::INC, AddressingMode::ZeroPage, 5, false),
        0xE8 => Instruction::entry(0xE8, InstructionType::INX, AddressingMode::Implied, 2, false),
        0xE9 => Instruction::entry(0xE9, InstructionType::SBC, AddressingMode::Immediate, 2, false),
        0xEA => Instruction::entry(0xEA, InstructionType::NOP, AddressingMode::Implied, 2, false),
        0xEC => Instruction::entry(0xEC, InstructionType::CPX, AddressingMode::Absolute, 4, false),
        0xED => Instruction::entry(0xED, InstructionType::SBC, AddressingMode::Absolute, 4, false),
        0xEE => Instruction::entry(0xEE, InstructionType::INC, AddressingMode::Absolute, 6, false),
        0xF0 => Instruction::entry(0xF0, InstructionType::BEQ, AddressingMode::Relative, 2, true),
        0xF1 => Instruction::entry(0xF1, InstructionType::SBC, AddressingMode::IndirectY, 5, true),
        0xF5 => Instruction::entry(0xF5, InstructionType::SBC, AddressingMode::ZeroPageX, 4, false),
        0xF6 => Instruction::entry(0xF6, InstructionType::INC, AddressingMode::ZeroPageX, 6, false),
        0xF8 => Instruction::entry(0xF8, InstructionType::SED, AddressingMode::Implied, 2, false),
        0xF9 => Instruction::entry(0xF9, InstructionType::SBC, AddressingMode::AbsoluteY, 4, true),
        0xFD => Instruction::entry(0xFD, InstructionType::SBC, AddressingMode::AbsoluteX, 4, true),
        0xFE => Instruction::entry(0xFE, InstructionType::INC, AddressingMode::AbsoluteX, 7, false),
        _ => Instruction::unassigned(opcode),
    }
}

/// Every descriptor sits at its own opcode and pairs its mnemonic with an
/// addressing mode that gives the operands the mnemonic needs.
pub proof fn lemma_descriptor_well_formed(opcode: u8)
    ensures
        descriptor(opcode).opcode == opcode,
        descriptor(opcode).well_formed(),
        descriptor(opcode).cycles <= 7,
{
    reveal(descriptor);
}

/// Looks up the descriptor of `opcode`.
#[verifier::rlimit(40)]
pub fn lookup(opcode: u8) -> (instruction: Instruction)
    ensures
        instruction == descriptor(opcode),
{
    reveal(descriptor);
    match opcode {
        0x00 => Instruction::new(0x00, InstructionType::BRK, AddressingMode::Implied, 7, false),
        0x01 => Instruction::new(0x01, InstructionType::ORA, AddressingMode::IndirectX, 6, false),
        0x02 => Instruction::new(0x02, InstructionType::KIL, AddressingMode::Implied, 2, false),
        0x05 => Instruction::new(0x05, InstructionType::ORA, AddressingMode::ZeroPage, 3, false),
        0x06 => Instruction::new(0x06, InstructionType::ASL, AddressingMode::ZeroPage, 5, false),
        0x08 => Instruction::new(0x08, InstructionType::PHP, AddressingMode::Implied, 3, false),
        0x09 => Instruction::new(0x09, InstructionType::ORA, AddressingMode::Immediate, 2, false),
        0x0A => Instruction::new(0x0A, InstructionType::ASL, AddressingMode::Accumulator, 2, false),
        0x0D => Instruction::new(0x0D, InstructionType::ORA, AddressingMode::Absolute, 4, false),
        0x0E => Instruction::new(0x0E, InstructionType::ASL, AddressingMode::Absolute, 6, false),
        0x10 => Instruction::new(0x10, InstructionType::BPL, AddressingMode::Relative, 2, true),
        0x11 => Instruction::new(0x11, InstructionType::ORA, AddressingMode::IndirectY, 5, true),
        0x15 => Instruction::new(0x15, InstructionType::ORA, AddressingMode::ZeroPageX, 4, false),
        0x16 => Instruction::new(0x16, InstructionType::ASL, AddressingMode::ZeroPageX, 6, false),
        0x18 => Instruction::new(0x18, InstructionType::CLC, AddressingMode::Implied, 2, false),
        0x19 => Instruction::new(0x19, InstructionType::ORA, AddressingMode::AbsoluteY, 4, true),
        0x1D => Instruction::new(0x1D, InstructionType::ORA, AddressingMode::AbsoluteX, 4, true),
        0x1E => Instruction::new(0x1E, InstructionType::ASL, AddressingMode::AbsoluteX, 7, false),
        0x20 => Instruction::new(0x20, InstructionType::JSR, AddressingMode::Absolute, 6, false),
        0x21 => Instruction::new(0x21, InstructionType::AND, AddressingMode::IndirectX, 6, false),
        0x24 => Instruction::new(0x24, InstructionType::BIT, AddressingMode::ZeroPage, 3, false),
        0x25 => Instruction::new(0x25, InstructionType::AND, AddressingMode::ZeroPage, 3, false),
        0x26 => Instruction::new(0x26, InstructionType::ROL, AddressingMode::ZeroPage, 5, false),
        0x28 => Instruction::new(0x28, InstructionType::PLP, AddressingMode::Implied, 4, false),
        0x29 => Instruction::new(0x29, InstructionType::AND, AddressingMode::Immediate, 2, false),
        0x2A => Instruction::new(0x2A, InstructionType::ROL, AddressingMode::Accumulator, 2, false),
        0x2C => Instruction::new(0x2C, InstructionType::BIT, AddressingMode::Absolute, 4, false),
        0x2D => Instruction::new(0x2D, InstructionType::AND, AddressingMode::Absolute, 4, false),
        0x2E => Instruction::new(0x2E, InstructionType::ROL, AddressingMode::Absolute, 6, false),
        0x30 => Instruction::new(0x30, InstructionType::BMI, AddressingMode::Relative, 2, true),
        0x31 => Instruction::new(0x31, InstructionType::AND, AddressingMode::IndirectY, 5, true),
        0x35 => Instruction::new(0x35, InstructionType::AND, AddressingMode::ZeroPageX, 4, false),
        0x36 => Instruction::new(0x36, InstructionType::ROL, AddressingMode::ZeroPageX, 6, false),
        0x38 => Instruction::new(0x38, InstructionType::SEC, AddressingMode::Implied, 2, false),
        0x39 => Instruction::new(0x39, InstructionType::AND, AddressingMode::AbsoluteY, 4, true),
        0x3D => Instruction::new(0x3D, InstructionType::AND, AddressingMode::AbsoluteX, 4, true),
        0x3E => Instruction::new(0x3E, InstructionType::ROL, AddressingMode::AbsoluteX, 7, false),
        0x40 => Instruction::new(0x40, InstructionType::RTI, AddressingMode::Implied, 6, false),
        0x41 => Instruction::new(0x41, InstructionType::EOR, AddressingMode::IndirectX, 6, false),
        0x45 => Instruction::new(0x45, InstructionType::EOR, AddressingMode::ZeroPage, 3, false),
        0x46 => Instruction::new(0x46, InstructionType::LSR, AddressingMode::ZeroPage, 5, false),
        0x48 => Instruction::new(0x48, InstructionType::PHA, AddressingMode::Implied, 3, false),
        0x49 => Instruction::new(0x49, InstructionType::EOR, AddressingMode::Immediate, 2, false),
        0x4A => Instruction::new(0x4A, InstructionType::LSR, AddressingMode::Accumulator, 2, false),
        0x4C => Instruction::new(0x4C, InstructionType::JMP, AddressingMode::Absolute, 3, false),
        0x4D => Instruction::new(0x4D, InstructionType::EOR, AddressingMode::Absolute, 4, false),
        0x4E => Instruction::new(0x4E, InstructionType::LSR, AddressingMode::Absolute, 6, false),
        0x50 => Instruction::new(0x50, InstructionType::BVC, AddressingMode::Relative, 2, true),
        0x51 => Instruction::new(0x51, InstructionType::EOR, AddressingMode::IndirectY, 5, true),
        0x55 => Instruction::new(0x55, InstructionType::EOR, AddressingMode::ZeroPageX, 4, false),
        0x56 => Instruction::new(0x56, InstructionType::LSR, AddressingMode::ZeroPageX, 6, false),
        0x58 => Instruction::new(0x58, InstructionType::CLI, AddressingMode::Implied, 2, false),
        0x59 => Instruction::new(0x59, InstructionType::EOR, AddressingMode::AbsoluteY, 4, true),
        0x5D => Instruction::new(0x5D, InstructionType::EOR, AddressingMode::AbsoluteX, 4, true),
        0x5E => Instruction::new(0x5E, InstructionType::LSR, AddressingMode::AbsoluteX, 7, false),
        0x60 => Instruction::new(0x60, InstructionType::RTS, AddressingMode::Implied, 6, false),
        0x61 => Instruction::new(0x61, InstructionType::ADC, AddressingMode::IndirectX, 6, false),
        0x65 => Instruction::new(0x65, InstructionType::ADC, AddressingMode::ZeroPage, 3, false),
        0x66 => Instruction::new(0x66, InstructionType::ROR, AddressingMode::ZeroPage, 5, false),
        0x68 => Instruction::new(0x68, InstructionType::PLA, AddressingMode::Implied, 4, false),
        0x69 => Instruction::new(0x69, InstructionType::ADC, AddressingMode::Immediate, 2, false),
        0x6A => Instruction::new(0x6A, InstructionType::ROR, AddressingMode::Accumulator, 2, false),
        0x6C => Instruction::new(0x6C, InstructionType::JMP, AddressingMode::Indirect, 5, false),
        0x6D => Instruction::new(0x6D, InstructionType::ADC, AddressingMode::Absolute, 4, false),
        0x6E => Instruction::new(0x6E, InstructionType::ROR, AddressingMode::Absolute, 6, false),
        0x70 => Instruction::new(0x70, InstructionType::BVS, AddressingMode::Relative, 2, true),
        0x71 => Instruction::new(0x71, InstructionType::ADC, AddressingMode::IndirectY, 5, true),
        0x75 => Instruction::new(0x75, InstructionType::ADC, AddressingMode::ZeroPageX, 4, false),
        0x76 => Instruction::new(0x76, InstructionType::ROR, AddressingMode::ZeroPageX, 6, false),
        0x78 => Instruction::new(0x78, InstructionType::SEI, AddressingMode::Implied, 2, false),
        0x79 => Instruction::new(0x79, InstructionType::ADC, AddressingMode::AbsoluteY, 4, true),
        0x7D => Instruction::new(0x7D, InstructionType::ADC, AddressingMode::AbsoluteX, 4, true),
        0x7E => Instruction::new(0x7E, InstructionType::ROR, AddressingMode::AbsoluteX, 7, false),
        0x81 => Instruction::new(0x81, InstructionType::STA, AddressingMode::IndirectX, 6, false),
        0x84 => Instruction::new(0x84, InstructionType::STY, AddressingMode::ZeroPage, 3, false),
        0x85 => Instruction::new(0x85, InstructionType::STA, AddressingMode::ZeroPage, 3, false),
        0x86 => Instruction::new(0x86, InstructionType::STX, AddressingMode::ZeroPage, 3, false),
        0x88 => Instruction::new(0x88, InstructionType::DEY, AddressingMode::Implied, 2, false),
        0x8A => Instruction::new(0x8A, InstructionType::TXA, AddressingMode::Implied, 2, false),
        0x8C => Instruction::new(0x8C, InstructionType::STY, AddressingMode::Absolute, 4, false),
        0x8D => Instruction::new(0x8D, InstructionType::STA, AddressingMode::Absolute, 4, false),
        0x8E => Instruction::new(0x8E, InstructionType::STX, AddressingMode::Absolute, 4, false),
        0x90 => Instruction::new(0x90, InstructionType::BCC, AddressingMode::Relative, 2, true),
        0x91 => Instruction::new(0x91, InstructionType::STA, AddressingMode::IndirectY, 6, false),
        0x94 => Instruction::new(0x94, InstructionType::STY, AddressingMode::ZeroPageX, 4, false),
        0x95 => Instruction::new(0x95, InstructionType::STA, AddressingMode::ZeroPageX, 4, false),
        0x96 => Instruction::new(0x96, InstructionType::STX, AddressingMode::ZeroPageY, 4, false),
        0x98 => Instruction::new(0x98, InstructionType::TYA, AddressingMode::Implied, 2, false),
        0x99 => Instruction::new(0x99, InstructionType::STA, AddressingMode::AbsoluteY, 5, false),
        0x9A => Instruction::new(0x9A, InstructionType::TXS, AddressingMode::Implied, 2, false),
        0x9D => Instruction::new(0x9D, InstructionType::STA, AddressingMode::AbsoluteX, 5, false),
        0xA0 => Instruction::new(0xA0, InstructionType::LDY, AddressingMode::Immediate, 2, false),
        0xA1 => Instruction::new(0xA1, InstructionType::LDA, AddressingMode::IndirectX, 6, false),
        0xA2 => Instruction::new(0xA2, InstructionType::LDX, AddressingMode::Immediate, 2, false),
        0xA4 => Instruction::new(0xA4, InstructionType::LDY, AddressingMode::ZeroPage, 3, false),
        0xA5 => Instruction::new(0xA5, InstructionType::LDA, AddressingMode::ZeroPage, 3, false),
        0xA6 => Instruction::new(0xA6, InstructionType::LDX, AddressingMode::ZeroPage, 3, false),
        0xA8 => Instruction::new(0xA8, InstructionType::TAY, AddressingMode::Implied, 2, false),
        0xA9 => Instruction::new(0xA9, InstructionType::LDA, AddressingMode::Immediate, 2, false),
        0xAA => Instruction::new(0xAA, InstructionType::TAX, AddressingMode::Implied, 2, false),
        0xAC => Instruction::new(0xAC, InstructionType::LDY, AddressingMode::Absolute, 4, false),
        0xAD => Instruction::new(0xAD, InstructionType::LDA, AddressingMode::Absolute, 4, false),
        0xAE => Instruction::new(0xAE, InstructionType::LDX, AddressingMode::Absolute, 4, false),
        0xB0 => Instruction::new(0xB0, InstructionType::BCS, AddressingMode::Relative, 2, true),
        0xB1 => Instruction::new(0xB1, InstructionType::LDA, AddressingMode::IndirectY, 5, true),
        0xB4 => Instruction::new(0xB4, InstructionType::LDY, AddressingMode::ZeroPageX, 4, false),
        0xB5 => Instruction::new(0xB5, InstructionType::LDA, AddressingMode::ZeroPageX, 4, false),
        0xB6 => Instruction::new(0xB6, InstructionType::LDX, AddressingMode::ZeroPageY, 4, false),
        0xB8 => Instruction::new(0xB8, InstructionType::CLV, AddressingMode::Implied, 2, false),
        0xB9 => Instruction::new(0xB9, InstructionType::LDA, AddressingMode::AbsoluteY, 4, true),
        0xBA => Instruction::new(0xBA, InstructionType::TSX, AddressingMode::Implied, 2, false),
        0xBC => Instruction::new(0xBC, InstructionType::LDY, AddressingMode::AbsoluteX, 4, true),
        0xBD => Instruction::new(0xBD, InstructionType::LDA, AddressingMode::AbsoluteX, 4, true),
        0xBE => Instruction::new(0xBE, InstructionType::LDX, AddressingMode::AbsoluteY, 4, true),
        0xC0 => Instruction::new(0xC0, InstructionType::CPY, AddressingMode::Immediate, 2, false),
        0xC1 => Instruction::new(0xC1, InstructionType::CMP, AddressingMode::IndirectX, 6, false),
        0xC4 => Instruction::new(0xC4, InstructionType::CPY, AddressingMode::ZeroPage, 3, false),
        0xC5 => Instruction::new(0xC5, InstructionType::CMP, AddressingMode::ZeroPage, 3, false),
        0xC6 => Instruction::new(0xC6, InstructionType::DEC, AddressingMode::ZeroPage, 5, false),
        0xC8 => Instruction::new(0xC8, InstructionType::INY, AddressingMode::Implied, 2, false),
        0xC9 => Instruction::new(0xC9, InstructionType::CMP, AddressingMode::Immediate, 2, false),
        0xCA => Instruction::new(0xCA, InstructionType::DEX, AddressingMode::Implied, 2, false),
        0xCC => Instruction::new(0xCC, InstructionType::CPY, AddressingMode::Absolute, 4, false),
        0xCD => Instruction::new(0xCD, InstructionType::CMP, AddressingMode::Absolute, 4, false),
        0xCE => Instruction::new(0xCE, InstructionType::DEC, AddressingMode::Absolute, 6, false),
        0xD0 => Instruction::new(0xD0, InstructionType::BNE, AddressingMode::Relative, 2, true),
        0xD1 => Instruction::new(0xD1, InstructionType::CMP, AddressingMode::IndirectY, 5, true),
        0xD5 => Instruction::new(0xD5, InstructionType::CMP, AddressingMode::ZeroPageX, 4, false),
        0xD6 => Instruction::new(0xD6, InstructionType::DEC, AddressingMode::ZeroPageX, 6, false),
        0xD8 => Instruction::new(0xD8, InstructionType::CLD, AddressingMode::Implied, 2, false),
        0xD9 => Instruction::new(0xD9, InstructionType::CMP, AddressingMode::AbsoluteY, 4, true),
        0xDD => Instruction::new(0xDD, InstructionType::CMP, AddressingMode::AbsoluteX, 4, true),
        0xDE => Instruction::new(0xDE, InstructionType::DEC, AddressingMode::AbsoluteX, 7, false),
        0xE0 => Instruction::new(0xE0, InstructionType::CPX, AddressingMode::Immediate, 2, false),
        0xE1 => Instruction::new(0xE1, InstructionType::SBC, AddressingMode::IndirectX, 6, false),
        0xE4 => Instruction::new(0xE4, InstructionType::CPX, AddressingMode::ZeroPage, 3, false),
        0xE5 => Instruction::new(0xE5, InstructionType::SBC, AddressingMode::ZeroPage, 3, false),
        0xE6 => Instruction::new(0xE6, InstructionType::INC, AddressingMode::ZeroPage, 5, false),
        0xE8 => Instruction::new(0xE8, InstructionType::INX, AddressingMode::Implied, 2, false),
        0xE9 => Instruction::new(0xE9, InstructionType::SBC, AddressingMode::Immediate, 2, false),
        0xEA => Instruction::new(0xEA, InstructionType::NOP, AddressingMode::Implied, 2, false),
        0xEC => Instruction::new(0xEC, InstructionType::CPX, AddressingMode::Absolute, 4, false),
        0xED => Instruction::new(0xED, InstructionType::SBC, AddressingMode::Absolute, 4, false),
        0xEE => Instruction::new(0xEE, InstructionType::INC, AddressingMode::Absolute, 6, false),
        0xF0 => Instruction::new(0xF0, InstructionType::BEQ, AddressingMode::Relative, 2, true),
        0xF1 => Instruction::new(0xF1, InstructionType::SBC, AddressingMode::IndirectY, 5, true),
        0xF5 => Instruction::new(0xF5, InstructionType::SBC, AddressingMode::ZeroPageX, 4, false),
        0xF6 => Instruction::new(0xF6, InstructionType::INC, AddressingMode::ZeroPageX, 6, false),
        0xF8 => Instruction::new(0xF8, InstructionType::SED, AddressingMode::Implied, 2, false),
        0xF9 => Instruction::new(0xF9, InstructionType::SBC, AddressingMode::AbsoluteY, 4, true),
        0xFD => Instruction::new(0xFD, InstructionType::SBC, AddressingMode::AbsoluteX, 4, true),
        0xFE => Instruction::new(0xFE, InstructionType::INC, AddressingMode::AbsoluteX, 7, false),
        _ => Instruction::invalid(opcode),
    }
}

} // verus!
