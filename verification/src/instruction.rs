//! Instruction descriptors: mnemonic, addressing mode and cycle cost.

use vstd::prelude::*;

verus! {

/// How an instruction finds its operand.
#[derive(Debug, Clone, Copy, PartialEq, Eq, Structural)]
pub enum AddressingMode {
    /// The operand is the accumulator.
    Accumulator,
    /// The operand is the byte after the opcode.
    Immediate,
    /// A 16-bit address follows the opcode.
    Absolute,
    /// An address in page zero follows the opcode.
    ZeroPage,
    /// Page-zero address plus X, wrapping inside page zero.
    ZeroPageX,
    /// Page-zero address plus Y, wrapping inside page zero.
    ZeroPageY,
    /// 16-bit address plus X.
    AbsoluteX,
    /// 16-bit address plus Y.
    AbsoluteY,
    /// A signed 8-bit offset from the address after the operand.
    Relative,
    /// The 16-bit address stored at the 16-bit address after the opcode.
    Indirect,
    /// The address stored in page zero at operand plus X.
    IndirectX,
    /// The address stored in page zero at the operand, plus Y.
    IndirectY,
    /// No operand.
    Implied,
}

impl AddressingMode {
    /// The number of operand bytes that follow the opcode.
    pub open spec fn operand_bytes(self) -> u16 {
        match self {
            AddressingMode::Accumulator | AddressingMode::Implied => 0,
            AddressingMode::Absolute
            | AddressingMode::AbsoluteX
            | AddressingMode::AbsoluteY
            | AddressingMode::Indirect => 2,
            _ => 1,
        }
    }

    /// Whether the mode names a memory address.
    pub open spec fn has_address(self) -> bool {
        !(self is Implied || self is Accumulator || self is Immediate)
    }

    /// Whether the mode yields an operand byte.
    pub open spec fn has_value(self) -> bool {
        !(self is Implied)
    }

    /// The number of operand bytes that follow the opcode.
    pub fn operand_size(&self) -> (size: u16)
        ensures
            size == self.operand_bytes(),
            size <= 2,
    {
        match self {
            AddressingMode::Accumulator => 0,
            AddressingMode::Immediate => 1,
            AddressingMode::Absolute => 2,
            AddressingMode::ZeroPage => 1,
            AddressingMode::ZeroPageX => 1,
            AddressingMode::ZeroPageY => 1,
            AddressingMode::AbsoluteX => 2,
            AddressingMode::AbsoluteY => 2,
            AddressingMode::Relative => 1,
            AddressingMode::Indirect => 2,
            AddressingMode::IndirectX => 1,
            AddressingMode::IndirectY => 1,
            AddressingMode::Implied => 0,
        }
    }
}

/// The mnemonics: the 56 official ones and KIL, which halts the processor.
#[derive(Debug, Clone, Copy, PartialEq, Eq, Structural)]
pub enum InstructionType {
    ADC,
    AND,
    ASL,
    BCC,
    BCS,
    BEQ,
    BIT,
    BMI,
    BNE,
    BPL,
    BRK,
    BVC,
    BVS,
    CLC,
    CLD,
    CLI,
    CLV,
    CMP,
    CPX,
    CPY,
    DEC,
    DEX,
    DEY,
    EOR,
    INC,
    INX,
    INY,
    JMP,
    JSR,
    KIL,
    LDA,
    LDX,
    LDY,
    LSR,
    NOP,
    ORA,
    PHA,
    PHP,
    PLA,
    PLP,
    ROL,
    ROR,
    RTI,
    RTS,
    SBC,
    SEC,
    SED,
    SEI,
    STA,
    STX,
    STY,
    TAX,
    TAY,
    TSX,
    TXA,
    TXS,
    TYA,
}

impl InstructionType {
    /// Whether the instruction assigns the program counter itself: jumps,
    /// subroutine call and return, branches, BRK and RTI.
    pub open spec fn transfers_control(self) -> bool {
        match self {
            InstructionType::JMP
            | InstructionType::JSR
            | InstructionType::RTS
            | InstructionType::RTI
            | InstructionType::BRK
            | InstructionType::BCC
            | InstructionType::BCS
            | InstructionType::BEQ
            | InstructionType::BMI
            | InstructionType::BNE
            | InstructionType::BPL
            | InstructionType::BVC
            | InstructionType::BVS => true,
            _ => false,
        }
    }

    /// Whether the instruction consumes an operand byte.
    pub open spec fn reads_operand(self) -> bool {
        match self {
            InstructionType::ADC
            | InstructionType::AND
            | InstructionType::BIT
            | InstructionType::CMP
            | InstructionType::CPX
            | InstructionType::CPY
            | InstructionType::EOR
            | InstructionType::LDA
            | InstructionType::LDX
            | InstructionType::LDY
            | InstructionType::ORA
            | InstructionType::SBC => true,
            _ => false,
        }
    }

    /// Whether the instruction needs a memory address: stores, memory
    /// increments, jumps to an address and branches.
    pub open spec fn needs_address(self) -> bool {
        match self {
            InstructionType::STA
            | InstructionType::STX
            | InstructionType::STY
            | InstructionType::INC
            | InstructionType::DEC
            | InstructionType::JMP
            | InstructionType::JSR
            | InstructionType::BCC
            | InstructionType::BCS
            | InstructionType::BEQ
            | InstructionType::BMI
            | InstructionType::BNE
            | InstructionType::BPL
            | InstructionType::BVC
            | InstructionType::BVS => true,
            _ => false,
        }
    }

    /// Whether the instruction shifts or rotates the accumulator or a byte
    /// of memory.
    pub open spec fn shifts(self) -> bool {
        match self {
            InstructionType::ASL
            | InstructionType::LSR
            | InstructionType::ROL
            | InstructionType::ROR => true,
            _ => false,
        }
    }

    /// Whether an instruction of this type can run with operands found by
    /// `mode`.
    pub open spec fn accepts(self, mode: AddressingMode) -> bool {
        &&& self.reads_operand() ==> mode.has_value()
        &&& self.needs_address() ==> mode.has_address()
        &&& self.shifts() ==> mode is Accumulator || mode.has_address()
    }

    /// Whether the instruction assigns the program counter itself.
    pub fn is_jump(&self) -> (jump: bool)
        ensures
            jump == self.transfers_control(),
    {
        match self {
            InstructionType::JMP
            | InstructionType::JSR
            | InstructionType::RTS
            | InstructionType::RTI
            | InstructionType::BRK
            | InstructionType::BCC
            | InstructionType::BCS
            | InstructionType::BEQ
            | InstructionType::BMI
            | InstructionType::BNE
            | InstructionType::BPL
            | InstructionType::BVC
            | InstructionType::BVS => true,
            _ => false,
        }
    }
}

/// What the processor knows of one opcode.
#[derive(Debug, Clone, Copy, PartialEq, Eq, Structural)]
pub struct Instruction {
    /// The opcode byte that selects this descriptor.
    pub opcode: u8,
    /// The mnemonic.
    pub instruction_type: InstructionType,
    /// How the operand is found.
    pub mode: AddressingMode,
    /// The base cost in cycles.
    pub cycles: u8,
    /// Whether real hardware takes one cycle more when the access crosses a
    /// page. The interpreter records this and charges the base cost only.
    pub extra_cycle: bool,
}

impl Instruction {
    /// The descriptor of an opcode that names no instruction: it behaves as
    /// NOP.
    pub open spec fn unassigned(opcode: u8) -> Instruction {
        Instruction {
            opcode,
            instruction_type: InstructionType::NOP,
            mode: AddressingMode::Implied,
            cycles: 2,
            extra_cycle: false,
        }
    }

    /// The descriptor with the given fields.
    pub open spec fn entry(
        opcode: u8,
        instruction_type: InstructionType,
        mode: AddressingMode,
        cycles: u8,
        extra_cycle: bool,
    ) -> Instruction {
        Instruction { opcode, instruction_type, mode, cycles, extra_cycle }
    }

    /// Builds a descriptor from its fields.
    pub fn new(
        opcode: u8,
        instruction_type: InstructionType,
        mode: AddressingMode,
        cycles: u8,
        extra_cycle: bool,
    ) -> (instruction: Instruction)
        ensures
            instruction == Instruction::entry(opcode, instruction_type, mode, cycles, extra_cycle),
    {
        Instruction { opcode, instruction_type, mode, cycles, extra_cycle }
    }

    /// Whether the operands that the mode finds are those that the mnemonic
    /// needs.
    pub open spec fn well_formed(self) -> bool {
        self.instruction_type.accepts(self.mode)
    }

    /// The descriptor of an opcode that names no instruction.
    pub fn invalid(opcode: u8) -> (instruction: Instruction)
        ensures
            instruction == Instruction::unassigned(opcode),
    {
        Instruction {
            opcode,
            instruction_type: InstructionType::NOP,
            mode: AddressingMode::Implied,
            cycles: 2,
            extra_cycle: false,
        }
    }

    /// Whether the instruction assigns the program counter itself, so that
    /// decoding must not move the program counter past its operand.
    pub fn is_jump(&self) -> (jump: bool)
        ensures
            jump == self.instruction_type.transfers_control(),
    {
        self.instruction_type.is_jump()
    }
}

} // verus!
