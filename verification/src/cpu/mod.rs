//! The processor: registers, address space and the stepping interface.

pub mod alu;
pub mod instructions;
pub mod laws;
pub mod semantics;
pub mod state;

use vstd::prelude::*;
use crate::cpu::alu::{add_binary_bytes, add_decimal_bytes, compare_bytes, subtract_binary_bytes,
    subtract_decimal_bytes, Comparison, Shifted, Sum};
use crate::cpu::state::{stack_address, State};
use crate::default_memory::DefaultMemory;
use crate::error::CpuError;
use crate::instruction::{AddressingMode, Instruction, InstructionType};
use crate::instruction_table::{lemma_descriptor_well_formed, lookup};
use crate::memory::{image, Memory, RESET_VECTOR};
use crate::registers::{Flag, Registers};
use crate::util::{from_twos_complement_bits, high_byte, low_byte, make_word, set_bit};

pub use crate::cpu::state::{Interrupt, Voltage};

verus! {

/// A 6502 with the address space it works on.
pub struct Cpu<M: Memory = DefaultMemory> {
    /// The register file.
    pub registers: Registers,
    /// The address space.
    pub memory: M,
    /// The cycles spent so far; the counter wraps at 32 bits.
    pub cycles: u32,
    /// The descriptor of the instruction that was decoded last. The
    /// instruction handlers find their addressing mode here.
    pub current_instruction: Option<Instruction>,
    /// The level of the IRQ line; see `set_irq_line`.
    pub irq_line: Voltage,
    /// Whether an NMI edge waits to be serviced; see `pulse_nmi`.
    pub nmi_edge: bool,
    /// Whether KIL has halted the processor. A reset starts it again.
    pub halted: bool,
}

impl<M: Memory> View for Cpu<M> {
    type V = State;

    open spec fn view(&self) -> State {
        State {
            registers: self.registers,
            memory: image(&self.memory),
            cycles: self.cycles,
            current_instruction: self.current_instruction,
            irq_line: self.irq_line,
            nmi_edge: self.nmi_edge,
            halted: self.halted,
        }
    }
}

impl State {
    /// The state of a processor that was just built: zeroed memory, fresh
    /// registers, no cycles spent, no interrupt pending.
    pub open spec fn power_on() -> State {
        State {
            registers: Registers::initial(),
            memory: Seq::new(0x10000, |address: int| 0u8),
            cycles: 0,
            current_instruction: None,
            irq_line: Voltage::High,
            nmi_edge: false,
            halted: false,
        }
    }

    /// The state with a program image copied to `address` and the addresses
    /// after it. Nothing outside the image changes.
    pub open spec fn loaded(self, executable: Seq<u8>, address: u16) -> State {
        State {
            memory: Seq::new(
                0x10000,
                |at: int|
                    if address <= at < address + executable.len() {
                        executable[at - address]
                    } else {
                        self.memory[at]
                    },
            ),
            ..self
        }
    }
}

impl<M: Memory> Cpu<M> {
    /// A processor on zeroed memory, with fresh registers and the program
    /// counter taken from the reset vector.
    pub fn new() -> (cpu: Cpu<M>)
        ensures
            cpu@ == State::power_on(),
    {
        let mut cpu = Cpu {
            registers: Registers::new(),
            memory: M::new(),
            cycles: 0,
            current_instruction: None,
            irq_line: Voltage::High,
            nmi_edge: false,
            halted: false,
        };
        cpu.init_registers();
        assert(cpu@.memory =~= State::power_on().memory);
        cpu
    }

    /// Brings the registers back to their fresh values, loads the program
    /// counter from the reset vector, sets the cycle counter to 8 and lets
    /// a halted processor run again.
    pub fn reset(&mut self)
        ensures
            final(self)@ == old(self)@.reset(),
    {
        self.registers = Registers::new();
        self.init_registers();
        self.cycles = 8;
        self.halted = false;
    }

    /// Loads the program counter from the reset vector and points the stack
    /// pointer at the top of page one.
    pub fn init_registers(&mut self)
        ensures
            final(self)@ == old(self)@.with_pc(old(self)@.read_short(RESET_VECTOR)).with_sp(0xFF),
    {
        self.registers.pc = self.read_memory_short(RESET_VECTOR);
        self.registers.sp = 0xFF;
    }

    /// Copies a program image to `address` and stores `address` in the
    /// reset vector. An image that would reach the vector area at 0xFFFA is
    /// refused, and nothing is changed then.
    pub fn load_executable(&mut self, bytes: &[u8], address: u16) -> (loaded: Result<(), CpuError>)
        ensures
            loaded is Ok <==> address + bytes@.len() <= 0xFFFA,
            loaded is Ok ==> final(self)@ == old(self)@.loaded(bytes@, address).write_short(
                RESET_VECTOR,
                address,
            ),
            loaded is Err ==> loaded == Err::<(), CpuError>(CpuError::LoadOversize) && final(self)@
                == old(self)@,
    {
        match self.memory.load(bytes, address) {
            Ok(()) => {
                assert(self@.memory =~= old(self)@.loaded(bytes@, address).memory);
                self.set_reset_vector(address);
                Ok(())
            },
            Err(error) => {
                assert(self@.memory =~= old(self)@.memory);
                Err(error)
            },
        }
    }

    /// Stores `address` in the reset vector.
    pub fn set_reset_vector(&mut self, address: u16)
        ensures
            final(self)@ == old(self)@.write_short(RESET_VECTOR, address),
    {
        self.memory.write_short(RESET_VECTOR, address);
        assert(self@.memory =~= old(self)@.write_short(RESET_VECTOR, address).memory);
    }

    /// Sets the level of the IRQ line. While the line is low and
    /// InterruptDisable is clear, every step ends by entering the IRQ
    /// routine.
    pub fn set_irq_line(&mut self, state: Voltage)
        ensures
            final(self)@ == (State { irq_line: state, ..old(self)@ }),
    {
        self.irq_line = state;
    }

    /// Latches an NMI edge, which the next step services once.
    pub fn pulse_nmi(&mut self)
        ensures
            final(self)@ == (State { nmi_edge: true, ..old(self)@ }),
    {
        self.nmi_edge = true;
    }

    /// Whether KIL has halted the processor.
    pub fn is_halted(&self) -> (halted: bool)
        ensures
            halted == self@.halted,
    {
        self.halted
    }

    /// Reads the byte at `address`.
    pub fn read_memory(&self, address: u16) -> (value: u8)
        ensures
            value == self@.read(address),
    {
        self.memory.read_byte(address)
    }

    /// Reads the little-endian word at `address`.
    pub fn read_memory_short(&self, address: u16) -> (value: u16)
        ensures
            value == self@.read_short(address),
    {
        self.memory.read_short(address)
    }

    /// Writes `value` at `address`.
    pub fn write_memory(&mut self, address: u16, value: u8)
        ensures
            final(self)@ == old(self)@.write(address, value),
    {
        self.memory.write_byte(address, value);
        assert(self@.memory =~= old(self)@.write(address, value).memory);
    }

    /// Reads the byte at the program counter.
    pub fn read_current_byte(&self) -> (value: u8)
        ensures
            value == self@.read(self.registers.pc),
    {
        self.read_memory(self.registers.pc)
    }

    /// Reads the word at the program counter.
    pub fn read_current_short(&self) -> (value: u16)
        ensures
            value == self@.read_short(self.registers.pc),
    {
        self.read_memory_short(self.registers.pc)
    }

    /// The addressing mode of the current instruction; Implied when there
    /// is none.
    pub fn current_mode(&self) -> (mode: AddressingMode)
        ensures
            mode == self@.mode(),
    {
        match self.current_instruction {
            Some(instruction) => instruction.mode,
            None => AddressingMode::Implied,
        }
    }

    /// The address of the first operand byte of the current instruction.
    pub fn operand_start(&self) -> (start: u16)
        ensures
            start == self@.operand_start(),
    {
        match self.current_instruction {
            Some(instruction) => {
                if instruction.is_jump() {
                    self.registers.pc
                } else {
                    self.registers.pc.wrapping_sub(instruction.mode.operand_size())
                }
            },
            None => self.registers.pc,
        }
    }

    /// The address in page zero that is `register` after the operand byte,
    /// wrapping inside page zero.
    pub fn indexed_zero_page(&self, register: u8) -> (address: u16)
        ensures
            address == self@.indexed_zero_page_address(register),
    {
        let zero_page_address: u8 = self.read_memory(self.operand_start());
        zero_page_address.wrapping_add(register) as u16
    }

    /// Reads the word stored at `pointer`, taking its high byte from the
    /// page of its low byte.
    pub fn read_short_in_page(&self, pointer: u16) -> (value: u16)
        ensures
            value == self@.read_short_in_page(pointer),
    {
        let low: u8 = self.read_memory(pointer);
        let next: u16 = (pointer / 256) * 256 + (pointer % 256 + 1) % 256;
        let high: u8 = self.read_memory(next);
        make_word(low, high)
    }

    /// The effective address of the operand of the current instruction.
    /// Implied, Accumulator and Immediate name no address.
    pub fn get_operand_address(&self) -> (address: Option<u16>)
        ensures
            address == self@.operand_address(),
            address is Some <==> self@.mode().has_address(),
    {
        let start: u16 = self.operand_start();
        match self.current_mode() {
            AddressingMode::Absolute => Some(self.read_memory_short(start)),
            AddressingMode::AbsoluteX => {
                Some(self.read_memory_short(start).wrapping_add(self.registers.x as u16))
            },
            AddressingMode::AbsoluteY => {
                Some(self.read_memory_short(start).wrapping_add(self.registers.y as u16))
            },
            AddressingMode::ZeroPage => Some(self.read_memory(start) as u16),
            AddressingMode::ZeroPageX => Some(self.indexed_zero_page(self.registers.x)),
            AddressingMode::ZeroPageY => Some(self.indexed_zero_page(self.registers.y)),
            AddressingMode::Indirect => {
                let direct_address: u16 = self.read_memory_short(start);
                Some(self.read_short_in_page(direct_address))
            },
            AddressingMode::IndirectX => {
                let pointer: u16 = self.indexed_zero_page(self.registers.x);
                Some(self.read_short_in_page(pointer))
            },
            AddressingMode::IndirectY => {
                let pointer: u16 = self.read_memory(start) as u16;
                Some(self.read_memory_short(pointer).wrapping_add(self.registers.y as u16))
            },
            AddressingMode::Relative => {
                let offset: i8 = from_twos_complement_bits(self.read_memory(start));
                Some(start.wrapping_add(1).wrapping_add_signed(offset as i16))
            },
            AddressingMode::Immediate | AddressingMode::Accumulator | AddressingMode::Implied => {
                None
            },
        }
    }

    /// The operand byte of the current instruction: the accumulator, the
    /// byte after the opcode, or the byte at the effective address. Implied
    /// has none.
    pub fn get_operand_value(&self) -> (value: Option<u8>)
        ensures
            value == self@.operand_value(),
            value is Some <==> self@.mode().has_value(),
    {
        match self.current_mode() {
            AddressingMode::Implied => None,
            AddressingMode::Immediate => Some(self.read_memory(self.operand_start())),
            AddressingMode::Accumulator => Some(self.registers.a),
            _ => {
                match self.get_operand_address() {
                    Some(address) => Some(self.read_memory(address)),
                    None => None,
                }
            },
        }
    }

    /// Sets Zero when `value` is 0 and clears it otherwise.
    pub fn update_zero_flag(&mut self, value: u8)
        ensures
            final(self)@ == old(self)@.with_flag(Flag::Zero, value == 0),
    {
        self.registers.flags.set(Flag::Zero, value == 0);
    }

    /// Copies bit 7 of `value` into Negative.
    pub fn update_negative_flag(&mut self, value: u8)
        ensures
            final(self)@ == old(self)@.with_flag(Flag::Negative, value >= 0x80),
    {
        let flag: u8 = 0b1000_0000;
        assert(((value & 0b1000_0000) == 0b1000_0000) == (value >= 0x80)) by (bit_vector);
        let is_negative: bool = (value & flag) == flag;
        self.registers.flags.set(Flag::Negative, is_negative);
    }

    /// Takes Zero and Negative from `value`.
    pub fn update_zero_and_negative_flags(&mut self, value: u8)
        ensures
            final(self)@ == old(self)@.with_nz(value),
    {
        self.update_zero_flag(value);
        self.update_negative_flag(value);
    }

    /// Pushes a byte: it is written where the stack pointer points, and the
    /// stack pointer then moves down. With the stack pointer at 0 nothing is
    /// pushed and a stack overflow is reported.
    pub fn push_byte(&mut self, value: u8) -> (pushed: Result<(), CpuError>)
        ensures
            pushed is Ok <==> old(self)@.can_push(1),
            pushed is Ok ==> final(self)@ == old(self)@.push(value),
            pushed is Err ==> pushed == Err::<(), CpuError>(CpuError::StackOverflow),
            pushed is Err ==> final(self)@ == old(self)@,
            0x0100 <= stack_address(old(self).registers.sp) <= 0x01FF,
    {
        if self.registers.sp == 0 {
            return Err(CpuError::StackOverflow);
        }
        self.write_memory(self.registers.sp as u16 + 0x100, value);
        self.registers.sp = self.registers.sp - 1;
        Ok(())
    }

    /// Pushes a word, high byte first. With fewer than two free bytes
    /// nothing is pushed and a stack overflow is reported.
    pub fn push_short(&mut self, value: u16) -> (pushed: Result<(), CpuError>)
        ensures
            pushed is Ok <==> old(self)@.can_push(2),
            pushed is Ok ==> final(self)@ == old(self)@.push_short(value),
            pushed is Err ==> pushed == Err::<(), CpuError>(CpuError::StackOverflow),
            pushed is Err ==> final(self)@ == old(self)@,
    {
        if self.registers.sp < 2 {
            return Err(CpuError::StackOverflow);
        }
        self.write_memory(self.registers.sp as u16 + 0x100, high_byte(value));
        self.registers.sp = self.registers.sp - 1;
        self.write_memory(self.registers.sp as u16 + 0x100, low_byte(value));
        self.registers.sp = self.registers.sp - 1;
        Ok(())
    }

    /// Pops a byte: the stack pointer moves up, and the byte it then points
    /// at is returned. With the stack pointer at 0xFF nothing is popped and
    /// a stack underflow is reported.
    pub fn pop_byte(&mut self) -> (popped: Result<u8, CpuError>)
        ensures
            popped is Ok <==> old(self)@.can_pop(1),
            popped matches Ok(value) ==> value == old(self)@.top(),
            popped is Ok ==> final(self)@ == old(self)@.pop(),
            popped is Err ==> popped == Err::<u8, CpuError>(CpuError::StackUnderflow),
            popped is Err ==> final(self)@ == old(self)@,
    {
        if self.registers.sp == 0xFF {
            return Err(CpuError::StackUnderflow);
        }
        self.registers.sp = self.registers.sp + 1;
        Ok(self.read_memory(self.registers.sp as u16 + 0x100))
    }

    /// Pops a word, low byte first. With fewer than two bytes on the stack
    /// nothing is popped and a stack underflow is reported.
    pub fn pop_short(&mut self) -> (popped: Result<u16, CpuError>)
        ensures
            popped is Ok <==> old(self)@.can_pop(2),
            popped matches Ok(value) ==> value == old(self)@.top_short(),
            popped is Ok ==> final(self)@ == old(self)@.pop_short(),
            popped is Err ==> popped == Err::<u16, CpuError>(CpuError::StackUnderflow),
            popped is Err ==> final(self)@ == old(self)@,
    {
        if self.registers.sp >= 0xFE {
            return Err(CpuError::StackUnderflow);
        }
        self.registers.sp = self.registers.sp + 1;
        let low: u8 = self.read_memory(self.registers.sp as u16 + 0x100);
        self.registers.sp = self.registers.sp + 1;
        let high: u8 = self.read_memory(self.registers.sp as u16 + 0x100);
        Ok(make_word(low, high))
    }

    /// A branch: the program counter takes the target when `condition`
    /// holds, else the address after the operand.
    pub fn branch_if(&mut self, condition: bool)
        requires
            old(self)@.mode().has_address(),
        ensures
            final(self)@ == old(self)@.branched(condition),
    {
        if condition {
            match self.get_operand_address() {
                Some(new_pc) => {
                    self.registers.pc = new_pc;
                },
                None => {},
            }
        } else {
            let size: u16 = self.current_mode().operand_size();
            self.registers.pc = self.registers.pc.wrapping_add(size);
        }
    }

    /// Puts the result of an addition or subtraction into the accumulator,
    /// Carry and Overflow.
    pub fn store_sum(&mut self, sum: Sum)
        ensures
            final(self)@ == old(self)@.with_sum(sum),
    {
        self.registers.a = sum.value;
        self.registers.flags.set(Flag::Carry, sum.carry);
        self.registers.flags.set(Flag::Overflow, sum.overflow);
    }

    /// Adds `value` and the carry to the accumulator in decimal mode.
    pub fn add_bcd(&mut self, value: u8)
        ensures
            final(self)@ == old(self)@.with_sum(
                crate::cpu::alu::add_decimal_result(
                    old(self).registers.a,
                    value,
                    old(self)@.flag(Flag::Carry),
                ),
            ),
    {
        let carry: bool = self.registers.flags.get(Flag::Carry);
        self.store_sum(add_decimal_bytes(self.registers.a, value, carry));
    }

    /// Adds `value` and the carry to the accumulator in binary mode: the
    /// accumulator takes the sum modulo 256, Carry says that the sum exceeded
    /// 255, Overflow that it left the range of a signed byte.
    pub fn add_binary(&mut self, value: u8)
        ensures
            final(self)@ == old(self)@.with_sum(
                crate::cpu::alu::add_binary_result(
                    old(self).registers.a,
                    value,
                    old(self)@.flag(Flag::Carry),
                ),
            ),
            final(self).registers.a == (old(self).registers.a + value
                + crate::cpu::alu::carry_value(old(self)@.flag(Flag::Carry))) % 256,
            final(self)@.flag(Flag::Carry) <==> old(self).registers.a + value
                + crate::cpu::alu::carry_value(old(self)@.flag(Flag::Carry)) > 255,
            final(self)@.flag(Flag::Overflow) <==> crate::cpu::alu::sign_overflow(
                old(self).registers.a,
                value,
                final(self).registers.a,
            ),
    {
        let carry: bool = self.registers.flags.get(Flag::Carry);
        let sum: Sum = add_binary_bytes(self.registers.a, value, carry);
        proof {
            let flags = self.registers.flags;
            flags.lemma_with(Flag::Carry, sum.carry);
            flags.with(Flag::Carry, sum.carry).lemma_with(Flag::Overflow, sum.overflow);
        }
        self.store_sum(sum);
    }

    /// Subtracts `value` and the borrow from the accumulator in decimal
    /// mode.
    pub fn sbc_bcd(&mut self, value: u8)
        ensures
            final(self)@ == old(self)@.with_sum(
                crate::cpu::alu::subtract_decimal_result(
                    old(self).registers.a,
                    value,
                    old(self)@.flag(Flag::Carry),
                ),
            ),
    {
        let carry: bool = self.registers.flags.get(Flag::Carry);
        self.store_sum(subtract_decimal_bytes(self.registers.a, value, carry));
    }

    /// Subtracts `value` and the borrow from the accumulator in binary
    /// mode.
    pub fn sbc_binary(&mut self, value: u8)
        ensures
            final(self)@ == old(self)@.with_sum(
                crate::cpu::alu::subtract_binary_result(
                    old(self).registers.a,
                    value,
                    old(self)@.flag(Flag::Carry),
                ),
            ),
    {
        let carry: bool = self.registers.flags.get(Flag::Carry);
        self.store_sum(subtract_binary_bytes(self.registers.a, value, carry));
    }

    /// The byte that a shift works on: the accumulator in Accumulator mode,
    /// else the byte at the effective address.
    pub fn shift_operand(&self) -> (value: u8)
        requires
            self@.mode() is Accumulator || self@.mode().has_address(),
        ensures
            value == self@.shift_operand(),
    {
        match self.get_operand_address() {
            Some(address) => self.read_memory(address),
            None => self.registers.a,
        }
    }

    /// Puts the result of a shift or rotation back where its operand came
    /// from, the accumulator or the effective address, and sets Carry, Zero
    /// and Negative from it.
    pub fn replace_accumulator_or_memory_with_carry(&mut self, shifted: Shifted)
        requires
            old(self)@.mode() is Accumulator || old(self)@.mode().has_address(),
        ensures
            final(self)@ == old(self)@.with_shifted(shifted),
    {
        match self.get_operand_address() {
            Some(address) => {
                self.write_memory(address, shifted.value);
            },
            None => {
                self.registers.a = shifted.value;
            },
        }
        self.registers.flags.set(Flag::Carry, shifted.carry);
        self.update_zero_and_negative_flags(shifted.value);
    }

    /// Compares `register` with the operand: Carry says that the register
    /// is not below the operand, Zero that they are equal, Negative is bit 7
    /// of their difference. No register changes.
    pub fn compare_register_with_memory(&mut self, register: u8)
        requires
            old(self)@.mode().has_value(),
        ensures
            final(self)@ == old(self)@.compared(register),
            final(self)@.flag(Flag::Carry) <==> register >= old(self)@.value(),
            final(self)@.flag(Flag::Zero) <==> register == old(self)@.value(),
            final(self)@.flag(Flag::Negative) <==> (register - old(self)@.value()) % 256 >= 128,
    {
        match self.get_operand_value() {
            Some(operand) => {
                let comparison: Comparison = compare_bytes(register, operand);
                proof {
                    let flags = self.registers.flags;
                    flags.lemma_with(Flag::Carry, comparison.carry);
                    flags.with(Flag::Carry, comparison.carry).lemma_with(
                        Flag::Zero,
                        comparison.zero,
                    );
                    flags.with(Flag::Carry, comparison.carry).with(
                        Flag::Zero,
                        comparison.zero,
                    ).lemma_with(Flag::Negative, comparison.negative);
                }
                self.registers.flags.set(Flag::Carry, comparison.carry);
                self.registers.flags.set(Flag::Zero, comparison.zero);
                self.registers.flags.set(Flag::Negative, comparison.negative);
            },
            None => {},
        }
    }

    /// Enters the interrupt routine of `typ`: pushes the program counter
    /// and the status byte, sets InterruptDisable, loads the program counter
    /// from the vector and charges seven cycles. The pushed status byte has
    /// the reserved bit set, and Break set for BRK only. Without room for
    /// three bytes on the stack nothing is done and a stack overflow is
    /// reported.
    pub fn handle_interrupt(&mut self, typ: Interrupt) -> (entered: Result<(), CpuError>)
        ensures
            entered is Ok <==> old(self)@.can_push(3),
            entered is Ok ==> final(self)@ == old(self)@.serviced(typ),
            entered is Err ==> entered == Err::<(), CpuError>(CpuError::StackOverflow),
            entered is Err ==> final(self)@ == old(self)@,
    {
        if self.registers.sp < 3 {
            return Err(CpuError::StackOverflow);
        }
        let vector_location: u16 = match typ {
            Interrupt::NonMaskable => 0xFFFA,
            Interrupt::Maskable => 0xFFFE,
            Interrupt::Break => 0xFFFE,
        };
        let with_break: bool = match typ {
            Interrupt::Break => true,
            _ => false,
        };
        let isr_address: u16 = self.read_memory_short(vector_location);
        let status: u8 = set_bit(set_bit(self.registers.flags.0, 5, true), 4, with_break);
        let _ = self.push_short(self.registers.pc);
        let _ = self.push_byte(status);
        self.registers.flags.set(Flag::InterruptDisable, true);
        self.registers.pc = isr_address;
        self.cycles = self.cycles.wrapping_add(7);
        match typ {
            Interrupt::NonMaskable => {
                self.nmi_edge = false;
            },
            _ => {},
        }
        Ok(())
    }

    /// Runs the handler of `instruction`, which must be the current one.
    /// An instruction that cannot run reports why: a push without room, a pop
    /// from an empty stack, or KIL, which also halts the processor.
    pub fn execute_instruction(&mut self, instruction: &Instruction) -> (done: Result<
        (),
        CpuError,
    >)
        requires
            old(self).current_instruction == Some(*instruction),
            instruction.well_formed(),
        ensures
            old(self)@.runs_to(instruction.instruction_type, final(self)@, done),
    {
        reveal(State::execute);
        match instruction.instruction_type {
            InstructionType::ADC => {
                self.adc();
                Ok(())
            },
            InstructionType::AND => {
                self.and();
                Ok(())
            },
            InstructionType::ASL => {
                self.asl();
                Ok(())
            },
            InstructionType::BCC => {
                self.bcc();
                Ok(())
            },
            InstructionType::BCS => {
                self.bcs();
                Ok(())
            },
            InstructionType::BEQ => {
                self.beq();
                Ok(())
            },
            InstructionType::BIT => {
                self.bit();
                Ok(())
            },
            InstructionType::BMI => {
                self.bmi();
                Ok(())
            },
            InstructionType::BNE => {
                self.bne();
                Ok(())
            },
            InstructionType::BPL => {
                self.bpl();
                Ok(())
            },
            InstructionType::BRK => self.brk(),
            InstructionType::BVC => {
                self.bvc();
                Ok(())
            },
            InstructionType::BVS => {
                self.bvs();
                Ok(())
            },
            InstructionType::CLC => {
                self.clc();
                Ok(())
            },
            InstructionType::CLD => {
                self.cld();
                Ok(())
            },
            InstructionType::CLI => {
                self.cli();
                Ok(())
            },
            InstructionType::CLV => {
                self.clv();
                Ok(())
            },
            InstructionType::CMP => {
                self.cmp();
                Ok(())
            },
            InstructionType::CPX => {
                self.cpx();
                Ok(())
            },
            InstructionType::CPY => {
                self.cpy();
                Ok(())
            },
            InstructionType::DEC => {
                self.dec();
                Ok(())
            },
            InstructionType::DEX => {
                self.dex();
                Ok(())
            },
            InstructionType::DEY => {
                self.dey();
                Ok(())
            },
            InstructionType::EOR => {
                self.eor();
                Ok(())
            },
            InstructionType::INC => {
                self.inc();
                Ok(())
            },
            InstructionType::INX => {
                self.inx();
                Ok(())
            },
            InstructionType::INY => {
                self.iny();
                Ok(())
            },
            InstructionType::JMP => {
                self.jmp();
                Ok(())
            },
            InstructionType::JSR => self.jsr(),
            InstructionType::KIL => self.kil(),
            InstructionType::LDA => {
                self.lda();
                Ok(())
            },
            InstructionType::LDX => {
                self.ldx();
                Ok(())
            },
            InstructionType::LDY => {
                self.ldy();
                Ok(())
            },
            InstructionType::LSR => {
                self.lsr();
                Ok(())
            },
            InstructionType::NOP => {
                self.nop();
                Ok(())
            },
            InstructionType::ORA => {
                self.ora();
                Ok(())
            },
            InstructionType::PHA => self.pha(),
            InstructionType::PHP => self.php(),
            InstructionType::PLA => self.pla(),
            InstructionType::PLP => self.plp(),
            InstructionType::ROL => {
                self.rol();
                Ok(())
            },
            InstructionType::ROR => {
                self.ror();
                Ok(())
            },
            InstructionType::RTI => self.rti(),
            InstructionType::RTS => self.rts(),
            InstructionType::SBC => {
                self.sbc();
                Ok(())
            },
            InstructionType::SEC => {
                self.sec();
                Ok(())
            },
            InstructionType::SED => {
                self.sed();
                Ok(())
            },
            InstructionType::SEI => {
                self.sei();
                Ok(())
            },
            InstructionType::STA => {
                self.sta();
                Ok(())
            },
            InstructionType::STX => {
                self.stx();
                Ok(())
            },
            InstructionType::STY => {
                self.sty();
                Ok(())
            },
            InstructionType::TAX => {
                self.tax();
                Ok(())
            },
            InstructionType::TAY => {
                self.tay();
                Ok(())
            },
            InstructionType::TSX => {
                self.tsx();
                Ok(())
            },
            InstructionType::TXA => {
                self.txa();
                Ok(())
            },
            InstructionType::TXS => {
                self.txs();
                Ok(())
            },
            InstructionType::TYA => {
                self.tya();
                Ok(())
            },
        }
    }

    /// Looks at the interrupt lines, as every step does after its
    /// instruction: a latched NMI edge is serviced and used up; else IRQ is
    /// serviced while its line is low and InterruptDisable is clear. An
    /// interrupt for which the stack has no room is not entered, and a stack
    /// overflow is reported.
    pub fn poll_interrupts(&mut self) -> (polled: Result<(), CpuError>)
        ensures
            final(self)@ == old(self)@.polled(),
            polled is Ok <==> old(self)@.poll_fault() is None,
            polled matches Err(error) ==> old(self)@.poll_fault() == Some(error),
    {
        if self.nmi_edge {
            return self.handle_interrupt(Interrupt::NonMaskable);
        }
        if self.irq_line == Voltage::Low && self.registers.flags.get(Flag::InterruptDisable)
            == false {
            return self.handle_interrupt(Interrupt::Maskable);
        }
        Ok(())
    }

    /// Executes one instruction: fetches the opcode at the program counter,
    /// decodes it, moves the program counter past the instruction (past the
    /// opcode only for a control transfer), runs the handler, charges the
    /// base cycles and looks at the interrupt lines.
    ///
    /// A halted processor does nothing and reports KIL. An instruction that
    /// cannot run is reported after decoding; no cycles are charged for it
    /// and the interrupt lines are not looked at.
    pub fn step(&mut self) -> (stepped: Result<(), CpuError>)
        ensures
            final(self)@ == old(self)@.stepped(),
            stepped is Ok <==> old(self)@.step_fault() is None,
            stepped matches Err(error) ==> old(self)@.step_fault() == Some(error),
            0x0100 <= stack_address(final(self).registers.sp) <= 0x01FF,
    {
        if self.halted {
            return Err(CpuError::KilEncountered);
        }
        let opcode: u8 = self.read_current_byte();
        let current_instruction: Instruction = lookup(opcode);
        proof {
            lemma_descriptor_well_formed(opcode);
        }
        self.current_instruction = Some(current_instruction);
        self.registers.pc = self.registers.pc.wrapping_add(1);
        if !current_instruction.is_jump() {
            self.registers.pc = self.registers.pc.wrapping_add(
                current_instruction.mode.operand_size(),
            );
        }
        assert(self@ == old(self)@.decoded());
        match self.execute_instruction(&current_instruction) {
            Ok(()) => {},
            Err(error) => {
                return Err(error);
            },
        }
        self.cycles = self.cycles.wrapping_add(current_instruction.cycles as u32);
        assert(self@ == old(self)@.executed());
        self.poll_interrupts()
    }
}

} // verus!
