//! What each instruction, an interrupt and a whole step do to the state.

use vstd::prelude::*;
use crate::cpu::alu::{add_binary_result, add_decimal_result, compare_result, rotate_left_result,
    rotate_right_result, shift_left_result, shift_right_result, subtract_binary_result,
    subtract_decimal_result, Shifted, Sum};
use crate::cpu::state::{offset_address, pushed_status, Interrupt, State};
use crate::error::CpuError;
use crate::instruction::{Instruction, InstructionType};
use crate::instruction_table::descriptor;
use crate::registers::{Flag, Flags};
use crate::util::bit_of;

verus! {

/// The cycles that entering an interrupt routine costs.
pub const INTERRUPT_CYCLES: u8 = 7;

/// The cycle count right after a reset.
pub const RESET_CYCLES: u32 = 8;

impl State {
    // Load and store

    /// LDA: the accumulator takes the operand; Zero and Negative follow it.
    pub open spec fn lda(self) -> State {
        self.with_a(self.value()).with_nz(self.value())
    }

    /// LDX: X takes the operand; Zero and Negative follow it.
    pub open spec fn ldx(self) -> State {
        self.with_x(self.value()).with_nz(self.value())
    }

    /// LDY: Y takes the operand; Zero and Negative follow it.
    pub open spec fn ldy(self) -> State {
        self.with_y(self.value()).with_nz(self.value())
    }

    /// STA: the accumulator is written at the effective address.
    pub open spec fn sta(self) -> State {
        self.write(self.address(), self.registers.a)
    }

    /// STX: X is written at the effective address.
    pub open spec fn stx(self) -> State {
        self.write(self.address(), self.registers.x)
    }

    /// STY: Y is written at the effective address.
    pub open spec fn sty(self) -> State {
        self.write(self.address(), self.registers.y)
    }

    // Register transfers

    /// TAX: X takes the accumulator; Zero and Negative follow it.
    pub open spec fn tax(self) -> State {
        self.with_x(self.registers.a).with_nz(self.registers.a)
    }

    /// TAY: Y takes the accumulator; Zero and Negative follow it.
    pub open spec fn tay(self) -> State {
        self.with_y(self.registers.a).with_nz(self.registers.a)
    }

    /// TXA: the accumulator takes X; Zero and Negative follow it.
    pub open spec fn txa(self) -> State {
        self.with_a(self.registers.x).with_nz(self.registers.x)
    }

    /// TYA: the accumulator takes Y; Zero and Negative follow it.
    pub open spec fn tya(self) -> State {
        self.with_a(self.registers.y).with_nz(self.registers.y)
    }

    /// TSX: X takes the stack pointer; Zero and Negative follow it.
    pub open spec fn tsx(self) -> State {
        self.with_x(self.registers.sp).with_nz(self.registers.sp)
    }

    /// TXS: the stack pointer takes X; no flag changes.
    pub open spec fn txs(self) -> State {
        self.with_sp(self.registers.x)
    }

    // Stack

    /// PHA: the accumulator is pushed.
    pub open spec fn pha(self) -> State {
        self.push(self.registers.a)
    }

    /// PLA: the accumulator takes the popped byte; Zero and Negative follow
    /// it.
    pub open spec fn pla(self) -> State {
        self.pop().with_a(self.top()).with_nz(self.top())
    }

    /// PHP: the status byte is pushed with Break and the reserved bit set.
    pub open spec fn php(self) -> State {
        self.push(pushed_status(self.registers.flags, true))
    }

    /// PLP: the status byte takes the popped byte, except for Break, which
    /// keeps the value it has in the register.
    pub open spec fn plp(self) -> State {
        self.pop().with_flags(Flags(self.top()).with(Flag::Break, self.flag(Flag::Break)))
    }

    // Logic

    /// AND: the accumulator is combined with the operand bit by bit.
    pub open spec fn and(self) -> State {
        let result = self.registers.a & self.value();
        self.with_a(result).with_nz(result)
    }

    /// ORA: the accumulator is combined with the operand bit by bit.
    pub open spec fn ora(self) -> State {
        let result = self.registers.a | self.value();
        self.with_a(result).with_nz(result)
    }

    /// EOR: the accumulator is combined with the operand bit by bit.
    pub open spec fn eor(self) -> State {
        let result = self.registers.a ^ self.value();
        self.with_a(result).with_nz(result)
    }

    /// BIT: Negative and Overflow take bits 7 and 6 of the operand, Zero
    /// says that operand and accumulator share no bit. The accumulator
    /// stays.
    pub open spec fn bit(self) -> State {
        let operand = self.value();
        self.with_flag(Flag::Negative, bit_of(operand, 7)).with_flag(
            Flag::Overflow,
            bit_of(operand, 6),
        ).with_flag(Flag::Zero, operand & self.registers.a == 0)
    }

    // Arithmetic

    /// The state after an addition or subtraction that left `sum`: the
    /// accumulator takes the result, Carry and Overflow are set from it.
    pub open spec fn with_sum(self, sum: Sum) -> State {
        self.with_a(sum.value).with_flag(Flag::Carry, sum.carry).with_flag(
            Flag::Overflow,
            sum.overflow,
        )
    }

    /// The result of the addition that ADC makes in this state.
    pub open spec fn adc_sum(self) -> Sum {
        if self.flag(Flag::Decimal) {
            add_decimal_result(self.registers.a, self.value(), self.flag(Flag::Carry))
        } else {
            add_binary_result(self.registers.a, self.value(), self.flag(Flag::Carry))
        }
    }

    /// The result of the subtraction that SBC makes in this state.
    pub open spec fn sbc_sum(self) -> Sum {
        if self.flag(Flag::Decimal) {
            subtract_decimal_result(self.registers.a, self.value(), self.flag(Flag::Carry))
        } else {
            subtract_binary_result(self.registers.a, self.value(), self.flag(Flag::Carry))
        }
    }

    /// ADC: the operand and the carry are added to the accumulator, in
    /// decimal when the Decimal flag is set. Zero and Negative follow the new
    /// accumulator.
    pub open spec fn adc(self) -> State {
        self.with_sum(self.adc_sum()).with_nz(self.adc_sum().value)
    }

    /// SBC: the operand and the borrow are subtracted from the accumulator,
    /// in decimal when the Decimal flag is set. Zero and Negative follow the
    /// new accumulator.
    pub open spec fn sbc(self) -> State {
        self.with_sum(self.sbc_sum()).with_nz(self.sbc_sum().value)
    }

    /// INC: the byte at the effective address goes up by one modulo 256.
    pub open spec fn inc(self) -> State {
        let result = ((self.read(self.address()) + 1) % 256) as u8;
        self.write(self.address(), result).with_nz(result)
    }

    /// DEC: the byte at the effective address goes down by one modulo 256.
    pub open spec fn dec(self) -> State {
        let result = ((self.read(self.address()) - 1) % 256) as u8;
        self.write(self.address(), result).with_nz(result)
    }

    /// INX: X goes up by one modulo 256.
    pub open spec fn inx(self) -> State {
        let result = ((self.registers.x + 1) % 256) as u8;
        self.with_x(result).with_nz(result)
    }

    /// INY: Y goes up by one modulo 256.
    pub open spec fn iny(self) -> State {
        let result = ((self.registers.y + 1) % 256) as u8;
        self.with_y(result).with_nz(result)
    }

    /// DEX: X goes down by one modulo 256.
    pub open spec fn dex(self) -> State {
        let result = ((self.registers.x - 1) % 256) as u8;
        self.with_x(result).with_nz(result)
    }

    /// DEY: Y goes down by one modulo 256.
    pub open spec fn dey(self) -> State {
        let result = ((self.registers.y - 1) % 256) as u8;
        self.with_y(result).with_nz(result)
    }

    // Shifts and rotations

    /// The byte that a shift works on: the accumulator in Accumulator mode,
    /// else the byte at the effective address.
    pub open spec fn shift_operand(self) -> u8 {
        if self.mode() is Accumulator {
            self.registers.a
        } else {
            self.read(self.address())
        }
    }

    /// The state after a shift that left `shifted`: the byte goes back where
    /// it came from, the carry is set from the bit that left, and Zero and
    /// Negative follow the new byte.
    pub open spec fn with_shifted(self, shifted: Shifted) -> State {
        let stored = if self.mode() is Accumulator {
            self.with_a(shifted.value)
        } else {
            self.write(self.address(), shifted.value)
        };
        stored.with_flag(Flag::Carry, shifted.carry).with_nz(shifted.value)
    }

    /// ASL: shift left.
    pub open spec fn asl(self) -> State {
        self.with_shifted(shift_left_result(self.shift_operand()))
    }

    /// LSR: shift right.
    pub open spec fn lsr(self) -> State {
        self.with_shifted(shift_right_result(self.shift_operand()))
    }

    /// ROL: rotate left through the carry.
    pub open spec fn rol(self) -> State {
        self.with_shifted(rotate_left_result(self.shift_operand(), self.flag(Flag::Carry)))
    }

    /// ROR: rotate right through the carry.
    pub open spec fn ror(self) -> State {
        self.with_shifted(rotate_right_result(self.shift_operand(), self.flag(Flag::Carry)))
    }

    // Comparison

    /// The state after comparing `register` with the operand: only Carry,
    /// Zero and Negative change.
    pub open spec fn compared(self, register: u8) -> State {
        let comparison = compare_result(register, self.value());
        self.with_flag(Flag::Carry, comparison.carry).with_flag(
            Flag::Zero,
            comparison.zero,
        ).with_flag(Flag::Negative, comparison.negative)
    }

    // Branches, jumps and subroutines

    /// The address after the operand of a control transfer: where execution
    /// goes on when a branch is not taken.
    pub open spec fn fall_through(self) -> u16 {
        offset_address(self.registers.pc, self.mode().operand_bytes() as int)
    }

    /// A branch: the program counter takes the target when `condition`
    /// holds, else the address after the operand.
    pub open spec fn branched(self, condition: bool) -> State {
        if condition {
            self.with_pc(self.address())
        } else {
            self.with_pc(self.fall_through())
        }
    }

    /// JMP: the program counter takes the effective address.
    pub open spec fn jmp(self) -> State {
        self.with_pc(self.address())
    }

    /// The address that JSR pushes: that of the last byte of the
    /// instruction.
    pub open spec fn return_address(self) -> u16 {
        offset_address(self.registers.pc, 1)
    }

    /// JSR: the return address is pushed and the program counter takes
    /// the effective address, which is read before anything is pushed.
    pub open spec fn jsr(self) -> State {
        self.push_short(self.return_address()).with_pc(self.address())
    }

    /// RTS: the program counter takes the popped word plus one.
    pub open spec fn rts(self) -> State {
        self.pop_short().with_pc(offset_address(self.top_short(), 1))
    }

    // Interrupts

    /// Entering an interrupt routine: the program counter and the status
    /// byte are pushed, InterruptDisable is set, the program counter takes
    /// the word at the vector, and seven cycles are charged.
    pub open spec fn interrupted(self, source: Interrupt) -> State {
        self.push_short(self.registers.pc).push(
            pushed_status(self.registers.flags, source is Break),
        ).with_flag(Flag::InterruptDisable, true).with_pc(
            self.read_short(source.vector()),
        ).with_cycles_added(INTERRUPT_CYCLES)
    }

    /// BRK: Break is set, the byte after the opcode is skipped, and the
    /// interrupt routine at 0xFFFE is entered. The seven cycles of the entry
    /// come on top of the base cycles that the step charges for BRK.
    pub open spec fn brk(self) -> State {
        self.with_flag(Flag::Break, true).with_pc(offset_address(self.registers.pc, 1)).serviced(
            Interrupt::Break,
        )
    }

    /// RTI: the status byte is popped, with Break clear, and then the
    /// program counter, to which nothing is added.
    pub open spec fn rti(self) -> State {
        self.pop().pop_short().with_flags(Flags(self.top()).with(Flag::Break, false)).with_pc(
            self.pop().top_short(),
        )
    }

    /// KIL: the processor halts.
    pub open spec fn kil(self) -> State {
        State { halted: true, ..self }
    }

    // Dispatch

    /// The condition that keeps an instruction of type `instruction_type`
    /// from running in this state, if there is one: a push without room, a
    /// pop from an empty stack, or KIL.
    pub open spec fn fault(self, instruction_type: InstructionType) -> Option<CpuError> {
        match instruction_type {
            InstructionType::PHA | InstructionType::PHP => if self.can_push(1) {
                None
            } else {
                Some(CpuError::StackOverflow)
            },
            InstructionType::JSR => if self.can_push(2) {
                None
            } else {
                Some(CpuError::StackOverflow)
            },
            InstructionType::BRK => if self.can_push(3) {
                None
            } else {
                Some(CpuError::StackOverflow)
            },
            InstructionType::PLA | InstructionType::PLP => if self.can_pop(1) {
                None
            } else {
                Some(CpuError::StackUnderflow)
            },
            InstructionType::RTS => if self.can_pop(2) {
                None
            } else {
                Some(CpuError::StackUnderflow)
            },
            InstructionType::RTI => if self.can_pop(3) {
                None
            } else {
                Some(CpuError::StackUnderflow)
            },
            InstructionType::KIL => Some(CpuError::KilEncountered),
            _ => None,
        }
    }

    /// The state that an instruction leaves when it cannot run: KIL halts
    /// the processor, a stack fault changes nothing.
    pub open spec fn faulted(self, instruction_type: InstructionType) -> State {
        if instruction_type is KIL {
            self.kil()
        } else {
            self
        }
    }

    /// The state after an instruction of type `instruction_type` that can
    /// run.
    #[verifier::opaque]
    pub open spec fn execute(self, instruction_type: InstructionType) -> State {
        match instruction_type {
            InstructionType::ADC => self.adc(),
            InstructionType::AND => self.and(),
            InstructionType::ASL => self.asl(),
            InstructionType::BCC => self.branched(!self.flag(Flag::Carry)),
            InstructionType::BCS => self.branched(self.flag(Flag::Carry)),
            InstructionType::BEQ => self.branched(self.flag(Flag::Zero)),
            InstructionType::BIT => self.bit(),
            InstructionType::BMI => self.branched(self.flag(Flag::Negative)),
            InstructionType::BNE => self.branched(!self.flag(Flag::Zero)),
            InstructionType::BPL => self.branched(!self.flag(Flag::Negative)),
            InstructionType::BRK => self.brk(),
            InstructionType::BVC => self.branched(!self.flag(Flag::Overflow)),
            InstructionType::BVS => self.branched(self.flag(Flag::Overflow)),
            InstructionType::CLC => self.with_flag(Flag::Carry, false),
            InstructionType::CLD => self.with_flag(Flag::Decimal, false),
            InstructionType::CLI => self.with_flag(Flag::InterruptDisable, false),
            InstructionType::CLV => self.with_flag(Flag::Overflow, false),
            InstructionType::CMP => self.compared(self.registers.a),
            InstructionType::CPX => self.compared(self.registers.x),
            InstructionType::CPY => self.compared(self.registers.y),
            InstructionType::DEC => self.dec(),
            InstructionType::DEX => self.dex(),
            InstructionType::DEY => self.dey(),
            InstructionType::EOR => self.eor(),
            InstructionType::INC => self.inc(),
            InstructionType::INX => self.inx(),
            InstructionType::INY => self.iny(),
            InstructionType::JMP => self.jmp(),
            InstructionType::JSR => self.jsr(),
            InstructionType::KIL => self.kil(),
            InstructionType::LDA => self.lda(),
            InstructionType::LDX => self.ldx(),
            InstructionType::LDY => self.ldy(),
            InstructionType::LSR => self.lsr(),
            InstructionType::NOP => self,
            InstructionType::ORA => self.ora(),
            InstructionType::PHA => self.pha(),
            InstructionType::PHP => self.php(),
            InstructionType::PLA => self.pla(),
            InstructionType::PLP => self.plp(),
            InstructionType::ROL => self.rol(),
            InstructionType::ROR => self.ror(),
            InstructionType::RTI => self.rti(),
            InstructionType::RTS => self.rts(),
            InstructionType::SBC => self.sbc(),
            InstructionType::SEC => self.with_flag(Flag::Carry, true),
            InstructionType::SED => self.with_flag(Flag::Decimal, true),
            InstructionType::SEI => self.with_flag(Flag::InterruptDisable, true),
            InstructionType::STA => self.sta(),
            InstructionType::STX => self.stx(),
            InstructionType::STY => self.sty(),
            InstructionType::TAX => self.tax(),
            InstructionType::TAY => self.tay(),
            InstructionType::TSX => self.tsx(),
            InstructionType::TXA => self.txa(),
            InstructionType::TXS => self.txs(),
            InstructionType::TYA => self.tya(),
        }
    }

    // A step

    /// The descriptor of the opcode at the program counter.
    pub open spec fn fetched(self) -> Instruction {
        descriptor(self.read(self.registers.pc))
    }

    /// The state after fetch and decode: the fetched descriptor is current,
    /// and the program counter has moved past the opcode and, unless the
    /// instruction is a control transfer, past the operand.
    pub open spec fn decoded(self) -> State {
        let instruction = self.fetched();
        let length: int = if instruction.instruction_type.transfers_control() {
            1
        } else {
            1 + instruction.mode.operand_bytes()
        };
        State { current_instruction: Some(instruction), ..self }.with_pc(
            offset_address(self.registers.pc, length),
        )
    }

    /// The state after fetch, decode and the instruction itself, with its
    /// base cycles charged; interrupts are not looked at yet. An instruction
    /// that cannot run charges nothing.
    pub open spec fn executed(self) -> State {
        let instruction = self.fetched();
        if self.decoded().fault(instruction.instruction_type) is Some {
            self.decoded().faulted(instruction.instruction_type)
        } else {
            self.decoded().execute(instruction.instruction_type).with_cycles_added(
                instruction.cycles,
            )
        }
    }

    /// The interrupt that is serviced at the next instruction boundary: a
    /// latched NMI edge, else IRQ while its line is low and InterruptDisable
    /// is clear.
    pub open spec fn pending_interrupt(self) -> Option<Interrupt> {
        if self.nmi_edge {
            Some(Interrupt::NonMaskable)
        } else if self.irq_line is Low && !self.flag(Flag::InterruptDisable) {
            Some(Interrupt::Maskable)
        } else {
            None
        }
    }

    /// The state after entering the routine of `source`; an NMI edge is
    /// used up by that.
    pub open spec fn serviced(self, source: Interrupt) -> State {
        let entered = self.interrupted(source);
        if source is NonMaskable {
            State { nmi_edge: false, ..entered }
        } else {
            entered
        }
    }

    /// Whether `after` and `result` are what an instruction of type
    /// `instruction_type` leaves in this state: on success the state after
    /// the instruction, else the fault and the state that the fault leaves.
    pub open spec fn runs_to(
        self,
        instruction_type: InstructionType,
        after: State,
        result: Result<(), CpuError>,
    ) -> bool {
        match result {
            Ok(()) => self.fault(instruction_type) is None && after == self.execute(
                instruction_type,
            ),
            Err(error) => self.fault(instruction_type) == Some(error) && after == self.faulted(
                instruction_type,
            ),
        }
    }

    /// The state after looking at the interrupt lines. An interrupt for
    /// which the stack has no room is not entered.
    pub open spec fn polled(self) -> State {
        match self.pending_interrupt() {
            Some(source) if self.can_push(3) => self.serviced(source),
            _ => self,
        }
    }

    /// The condition that looking at the interrupt lines reports: a stack
    /// overflow when an interrupt is pending and the stack has no room for
    /// it.
    pub open spec fn poll_fault(self) -> Option<CpuError> {
        if self.pending_interrupt() is Some && !self.can_push(3) {
            Some(CpuError::StackOverflow)
        } else {
            None
        }
    }

    /// The condition that a step reports, if any. A halted processor
    /// reports KIL again; a fault of the instruction comes before one of
    /// the interrupt that follows it.
    pub open spec fn step_fault(self) -> Option<CpuError> {
        if self.halted {
            Some(CpuError::KilEncountered)
        } else if self.decoded().fault(self.fetched().instruction_type) is Some {
            self.decoded().fault(self.fetched().instruction_type)
        } else {
            self.executed().poll_fault()
        }
    }

    /// The state after a step. A halted processor does nothing; an
    /// instruction that cannot run is decoded only, and interrupts are then
    /// not looked at.
    pub open spec fn stepped(self) -> State {
        if self.halted {
            self
        } else if self.decoded().fault(self.fetched().instruction_type) is Some {
            self.executed()
        } else {
            self.executed().polled()
        }
    }

    /// The state after a reset: fresh registers, the program counter from
    /// the reset vector, eight cycles on the counter, and the processor
    /// running again.
    pub open spec fn reset(self) -> State {
        State { cycles: RESET_CYCLES, halted: false, ..self }.with_registers(
            crate::registers::Registers::initial(),
        ).with_pc(self.read_short(crate::memory::RESET_VECTOR))
    }
}

} // verus!
