//! The state of the processor as a mathematical value, with reading,
//! writing, operand resolution and the stack as functions on it.

use vstd::prelude::*;
use crate::instruction::{AddressingMode, Instruction};
use crate::memory::next_address;
use crate::registers::{Flag, Flags, Registers};
use crate::util::{high_byte_of, low_byte_of, signed_of, with_bit, word_of};

verus! {

/// The level of an interrupt line. The IRQ line is asserted while it is low.
#[derive(Debug, Clone, Copy, PartialEq, Eq, Structural)]
pub enum Voltage {
    Low,
    High,
}

/// What asks the processor to enter an interrupt routine.
#[derive(Debug, Clone, Copy, PartialEq, Eq, Structural)]
pub enum Interrupt {
    /// The IRQ line, which the InterruptDisable flag masks.
    Maskable,
    /// An edge on the NMI line.
    NonMaskable,
    /// The BRK instruction.
    Break,
}

impl Interrupt {
    /// Where the address of the routine is stored: 0xFFFA for NMI, 0xFFFE
    /// for IRQ and BRK.
    pub open spec fn vector(self) -> u16 {
        match self {
            Interrupt::NonMaskable => 0xFFFA,
            Interrupt::Maskable | Interrupt::Break => 0xFFFE,
        }
    }
}

/// Everything that a step of the processor reads or changes.
pub struct State {
    /// The register file.
    pub registers: Registers,
    /// The 65536 bytes of the address space.
    pub memory: Seq<u8>,
    /// The cycle counter, which wraps at 32 bits.
    pub cycles: u32,
    /// The descriptor of the instruction that was decoded last.
    pub current_instruction: Option<Instruction>,
    /// The level of the IRQ line.
    pub irq_line: Voltage,
    /// Whether an NMI edge waits to be serviced.
    pub nmi_edge: bool,
    /// Whether KIL has halted the processor.
    pub halted: bool,
}

/// The address in page one that the stack pointer names.
pub open spec fn stack_address(sp: u8) -> u16 {
    (0x0100 + sp) as u16
}

/// The address after `address` in the same page: the address after the
/// last byte of a page is the first byte of that page.
pub open spec fn next_in_page(address: u16) -> u16 {
    ((address / 256) * 256 + (address + 1) % 256) as u16
}

/// `address` moved by `offset`, modulo 65536.
pub open spec fn offset_address(address: u16, offset: int) -> u16 {
    ((address + offset) % 0x10000) as u16
}

/// The status byte as it is pushed on the stack: the reserved bit 5 is set,
/// and Break is set for BRK and PHP and clear for IRQ and NMI.
pub open spec fn pushed_status(flags: Flags, with_break: bool) -> u8 {
    with_bit(with_bit(flags.0, 5, true), 4, with_break)
}

impl State {
    /// Whether the address space has its 65536 bytes.
    pub open spec fn wf(self) -> bool {
        self.memory.len() == 0x10000
    }

    /// The byte at `address`.
    pub open spec fn read(self, address: u16) -> u8 {
        self.memory[address as int]
    }

    /// The little-endian word at `address`; the word at 0xFFFF has its high
    /// byte at 0.
    pub open spec fn read_short(self, address: u16) -> u16 {
        word_of(self.read(address), self.read(next_address(address)))
    }

    /// The state with `value` written at `address`.
    pub open spec fn write(self, address: u16, value: u8) -> State {
        State { memory: self.memory.update(address as int, value), ..self }
    }

    /// The state with `value` written as a little-endian word at `address`.
    pub open spec fn write_short(self, address: u16, value: u16) -> State {
        self.write(address, low_byte_of(value)).write(next_address(address), high_byte_of(value))
    }

    /// The state with another register file.
    pub open spec fn with_registers(self, registers: Registers) -> State {
        State { registers, ..self }
    }

    /// The state with the accumulator replaced.
    pub open spec fn with_a(self, a: u8) -> State {
        self.with_registers(Registers { a, ..self.registers })
    }

    /// The state with the X register replaced.
    pub open spec fn with_x(self, x: u8) -> State {
        self.with_registers(Registers { x, ..self.registers })
    }

    /// The state with the Y register replaced.
    pub open spec fn with_y(self, y: u8) -> State {
        self.with_registers(Registers { y, ..self.registers })
    }

    /// The state with the stack pointer replaced.
    pub open spec fn with_sp(self, sp: u8) -> State {
        self.with_registers(Registers { sp, ..self.registers })
    }

    /// The state with the program counter replaced.
    pub open spec fn with_pc(self, pc: u16) -> State {
        self.with_registers(Registers { pc, ..self.registers })
    }

    /// The state with the status byte replaced.
    pub open spec fn with_flags(self, flags: Flags) -> State {
        self.with_registers(Registers { flags, ..self.registers })
    }

    /// Whether `flag` is set.
    pub open spec fn flag(self, flag: Flag) -> bool {
        self.registers.flags.is_set(flag)
    }

    /// The state with `flag` forced to `value`.
    pub open spec fn with_flag(self, flag: Flag, value: bool) -> State {
        self.with_flags(self.registers.flags.with(flag, value))
    }

    /// The state with Zero and Negative taken from `value`.
    pub open spec fn with_nz(self, value: u8) -> State {
        self.with_flags(self.registers.flags.with_nz(value))
    }

    /// The state with `cycles` more cycles on the counter, which wraps at 32
    /// bits.
    pub open spec fn with_cycles_added(self, cycles: u8) -> State {
        State { cycles: ((self.cycles + cycles) % 0x1_0000_0000) as u32, ..self }
    }

    /// The addressing mode of the current instruction; Implied when there is
    /// none.
    pub open spec fn mode(self) -> AddressingMode {
        match self.current_instruction {
            Some(instruction) => instruction.mode,
            None => AddressingMode::Implied,
        }
    }

    /// Whether the current instruction assigns the program counter itself.
    pub open spec fn in_control_transfer(self) -> bool {
        match self.current_instruction {
            Some(instruction) => instruction.instruction_type.transfers_control(),
            None => false,
        }
    }

    /// The address of the first operand byte of the current instruction. A
    /// control transfer finds the program counter there; for any other
    /// instruction the program counter has moved past the operand.
    pub open spec fn operand_start(self) -> u16 {
        if self.in_control_transfer() {
            self.registers.pc
        } else {
            offset_address(self.registers.pc, -(self.mode().operand_bytes() as int))
        }
    }

    /// The byte at the start of the operand.
    pub open spec fn operand_byte(self) -> u8 {
        self.read(self.operand_start())
    }

    /// The word at the start of the operand.
    pub open spec fn operand_short(self) -> u16 {
        self.read_short(self.operand_start())
    }

    /// The address in page zero that is `index` after the operand byte,
    /// wrapping inside page zero.
    pub open spec fn indexed_zero_page_address(self, index: u8) -> u16 {
        ((self.operand_byte() + index) % 256) as u16
    }

    /// The word stored at `pointer` with its high byte taken from the same
    /// page as its low byte.
    pub open spec fn read_short_in_page(self, pointer: u16) -> u16 {
        word_of(self.read(pointer), self.read(next_in_page(pointer)))
    }

    /// The effective address of the operand of the current instruction.
    /// Implied, Accumulator and Immediate name no address.
    pub open spec fn operand_address(self) -> Option<u16> {
        match self.mode() {
            AddressingMode::Implied
            | AddressingMode::Accumulator
            | AddressingMode::Immediate => None,
            AddressingMode::ZeroPage => Some(self.operand_byte() as u16),
            AddressingMode::ZeroPageX => Some(self.indexed_zero_page_address(self.registers.x)),
            AddressingMode::ZeroPageY => Some(self.indexed_zero_page_address(self.registers.y)),
            AddressingMode::Absolute => Some(self.operand_short()),
            AddressingMode::AbsoluteX => Some(
                offset_address(self.operand_short(), self.registers.x as int),
            ),
            AddressingMode::AbsoluteY => Some(
                offset_address(self.operand_short(), self.registers.y as int),
            ),
            AddressingMode::Indirect => Some(self.read_short_in_page(self.operand_short())),
            AddressingMode::IndirectX => Some(
                self.read_short_in_page(self.indexed_zero_page_address(self.registers.x)),
            ),
            AddressingMode::IndirectY => Some(
                offset_address(
                    self.read_short(self.operand_byte() as u16),
                    self.registers.y as int,
                ),
            ),
            AddressingMode::Relative => Some(
                offset_address(self.operand_start(), 1 + signed_of(self.operand_byte())),
            ),
        }
    }

    /// The operand byte of the current instruction: the accumulator, the
    /// byte after the opcode, or the byte at the effective address. Implied
    /// has none.
    pub open spec fn operand_value(self) -> Option<u8> {
        match self.mode() {
            AddressingMode::Implied => None,
            AddressingMode::Accumulator => Some(self.registers.a),
            AddressingMode::Immediate => Some(self.operand_byte()),
            _ => Some(self.read(self.operand_address().unwrap())),
        }
    }

    /// The effective address, for a mode that has one.
    pub open spec fn address(self) -> u16 {
        self.operand_address().unwrap()
    }

    /// The operand byte, for a mode that has one.
    pub open spec fn value(self) -> u8 {
        self.operand_value().unwrap()
    }

    /// The state after pushing `value`: it is written where the stack
    /// pointer points, and the stack pointer then moves down by one.
    pub open spec fn push(self, value: u8) -> State {
        self.write(stack_address(self.registers.sp), value).with_sp((self.registers.sp - 1) as u8)
    }

    /// The byte that a pop returns: the one above the stack pointer.
    pub open spec fn top(self) -> u8 {
        self.read(stack_address((self.registers.sp + 1) as u8))
    }

    /// The state after a pop: the stack pointer has moved up by one.
    pub open spec fn pop(self) -> State {
        self.with_sp((self.registers.sp + 1) as u8)
    }

    /// The state after pushing a word: the high byte first, then the low
    /// byte, which so lies at the lower address.
    pub open spec fn push_short(self, value: u16) -> State {
        self.push(high_byte_of(value)).push(low_byte_of(value))
    }

    /// The word that popping two bytes returns: the low byte first.
    pub open spec fn top_short(self) -> u16 {
        word_of(self.top(), self.pop().top())
    }

    /// The state after popping a word.
    pub open spec fn pop_short(self) -> State {
        self.pop().pop()
    }

    /// Whether the stack has room for `count` more bytes.
    pub open spec fn can_push(self, count: int) -> bool {
        self.registers.sp >= count
    }

    /// Whether the stack holds `count` bytes to pop.
    pub open spec fn can_pop(self, count: int) -> bool {
        self.registers.sp + count <= 0xFF
    }
}

} // verus!
