//! One handler for each mnemonic.
//!
//! A handler finds its operand through the current instruction. It expects
//! the program counter behind the whole instruction; the control transfers
//! (jumps, branches, JSR, BRK) expect it at their operand and assign it
//! themselves.

use vstd::prelude::*;
use crate::cpu::alu::{rotate_left, rotate_right, shift_left, shift_right};
use crate::cpu::state::Interrupt;
use crate::cpu::Cpu;
use crate::error::CpuError;
use crate::memory::Memory;
use crate::registers::{Flag, Flags};
use crate::util::{get_bit, set_bit};

verus! {

impl<M: Memory> Cpu<M> {
    /// BRK: sets Break, skips the byte after the opcode and enters the
    /// interrupt routine at 0xFFFE. Without room for three bytes on the
    /// stack nothing is done and a stack overflow is reported.
    pub fn brk(&mut self) -> (done: Result<(), CpuError>)
        ensures
            done is Ok <==> old(self)@.can_push(3),
            done is Ok ==> final(self)@ == old(self)@.brk(),
            done is Err ==> done == Err::<(), CpuError>(CpuError::StackOverflow) && final(self)@
                == old(self)@,
    {
        if self.registers.sp < 3 {
            return Err(CpuError::StackOverflow);
        }
        self.registers.flags.set(Flag::Break, true);
        self.registers.pc = self.registers.pc.wrapping_add(1);
        self.handle_interrupt(Interrupt::Break)
    }

    /// ORA: bitwise or of the accumulator with the operand.
    pub fn ora(&mut self)
        requires
            old(self)@.mode().has_value(),
        ensures
            final(self)@ == old(self)@.ora(),
    {
        let operand: u8 = self.get_operand_value().unwrap();
        self.registers.a = self.registers.a | operand;
        self.update_zero_and_negative_flags(self.registers.a);
    }

    /// KIL: halts the processor and reports it.
    pub fn kil(&mut self) -> (done: Result<(), CpuError>)
        ensures
            done == Err::<(), CpuError>(CpuError::KilEncountered),
            final(self)@ == old(self)@.kil(),
    {
        self.halted = true;
        Err(CpuError::KilEncountered)
    }

    /// ASL: shift left.
    pub fn asl(&mut self)
        requires
            old(self)@.mode() is Accumulator || old(self)@.mode().has_address(),
        ensures
            final(self)@ == old(self)@.asl(),
    {
        let value: u8 = self.shift_operand();
        self.replace_accumulator_or_memory_with_carry(shift_left(value));
    }

    /// PHP: pushes the status byte with Break and the reserved bit set.
    /// With the stack pointer at 0 nothing is pushed and a stack overflow is
    /// reported.
    pub fn php(&mut self) -> (done: Result<(), CpuError>)
        ensures
            done is Ok <==> old(self)@.can_push(1),
            done is Ok ==> final(self)@ == old(self)@.php(),
            done is Err ==> done == Err::<(), CpuError>(CpuError::StackOverflow) && final(self)@
                == old(self)@,
    {
        let status: u8 = set_bit(set_bit(self.registers.flags.0, 5, true), 4, true);
        self.push_byte(status)
    }

    /// BPL: branch when Negative is clear.
    pub fn bpl(&mut self)
        requires
            old(self)@.mode().has_address(),
        ensures
            final(self)@ == old(self)@.branched(!old(self)@.flag(Flag::Negative)),
    {
        self.branch_if(self.registers.flags.get(Flag::Negative) == false);
    }

    /// CLC: clears Carry.
    pub fn clc(&mut self)
        ensures
            final(self)@ == old(self)@.with_flag(Flag::Carry, false),
    {
        self.registers.flags.set(Flag::Carry, false);
    }

    /// JSR: pushes the address of the last byte of the instruction and
    /// jumps to the operand address. With fewer than two free bytes on the
    /// stack nothing is done and a stack overflow is reported.
    pub fn jsr(&mut self) -> (done: Result<(), CpuError>)
        requires
            old(self)@.mode().has_address(),
        ensures
            done is Ok <==> old(self)@.can_push(2),
            done is Ok ==> final(self)@ == old(self)@.jsr(),
            done is Err ==> done == Err::<(), CpuError>(CpuError::StackOverflow) && final(self)@
                == old(self)@,
    {
        let target: u16 = self.get_operand_address().unwrap();
        match self.push_short(self.registers.pc.wrapping_add(1)) {
            Ok(()) => {
                self.registers.pc = target;
                Ok(())
            },
            Err(error) => Err(error),
        }
    }

    /// AND: bitwise and of the accumulator with the operand.
    pub fn and(&mut self)
        requires
            old(self)@.mode().has_value(),
        ensures
            final(self)@ == old(self)@.and(),
    {
        let value: u8 = self.get_operand_value().unwrap();
        self.registers.a = self.registers.a & value;
        self.update_zero_and_negative_flags(self.registers.a);
    }

    /// BIT: Negative and Overflow take bits 7 and 6 of the operand, Zero
    /// says that the operand and the accumulator share no bit.
    pub fn bit(&mut self)
        requires
            old(self)@.mode().has_value(),
        ensures
            final(self)@ == old(self)@.bit(),
    {
        let value: u8 = self.get_operand_value().unwrap();
        self.registers.flags.set(Flag::Negative, get_bit(value, 7));
        self.registers.flags.set(Flag::Overflow, get_bit(value, 6));
        self.update_zero_flag(value & self.registers.a);
    }

    /// ROL: rotate left through the carry.
    pub fn rol(&mut self)
        requires
            old(self)@.mode() is Accumulator || old(self)@.mode().has_address(),
        ensures
            final(self)@ == old(self)@.rol(),
    {
        let value: u8 = self.shift_operand();
        let carry: bool = self.registers.flags.get(Flag::Carry);
        self.replace_accumulator_or_memory_with_carry(rotate_left(value, carry));
    }

    /// PLP: pops the status byte; Break keeps the value it has in the
    /// register. With the stack pointer at 0xFF nothing is popped and a
    /// stack underflow is reported.
    pub fn plp(&mut self) -> (done: Result<(), CpuError>)
        ensures
            done is Ok <==> old(self)@.can_pop(1),
            done is Ok ==> final(self)@ == old(self)@.plp(),
            done is Err ==> done == Err::<(), CpuError>(CpuError::StackUnderflow) && final(self)@
                == old(self)@,
    {
        let current_break_status: bool = self.registers.flags.get(Flag::Break);
        match self.pop_byte() {
            Ok(status) => {
                self.registers.flags = Flags(status);
                self.registers.flags.set(Flag::Break, current_break_status);
                Ok(())
            },
            Err(error) => Err(error),
        }
    }

    /// BMI: branch when Negative is set.
    pub fn bmi(&mut self)
        requires
            old(self)@.mode().has_address(),
        ensures
            final(self)@ == old(self)@.branched(old(self)@.flag(Flag::Negative)),
    {
        self.branch_if(self.registers.flags.get(Flag::Negative) == true);
    }

    /// SEC: sets Carry.
    pub fn sec(&mut self)
        ensures
            final(self)@ == old(self)@.with_flag(Flag::Carry, true),
    {
        self.registers.flags.set(Flag::Carry, true);
    }

    /// RTI: pops the status byte, with Break clear, and then the program
    /// counter, to which nothing is added. With fewer than three bytes on
    /// the stack nothing is popped and a stack underflow is reported.
    pub fn rti(&mut self) -> (done: Result<(), CpuError>)
        ensures
            done is Ok <==> old(self)@.can_pop(3),
            done is Ok ==> final(self)@ == old(self)@.rti(),
            done is Err ==> done == Err::<(), CpuError>(CpuError::StackUnderflow) && final(self)@
                == old(self)@,
    {
        if self.registers.sp >= 0xFD {
            return Err(CpuError::StackUnderflow);
        }
        match self.pop_byte() {
            Ok(status) => {
                self.registers.flags = Flags(status);
                self.registers.flags.set(Flag::Break, false);
            },
            Err(error) => {
                return Err(error);
            },
        }
        match self.pop_short() {
            Ok(address) => {
                self.registers.pc = address;
                Ok(())
            },
            Err(error) => Err(error),
        }
    }

    /// EOR: bitwise exclusive or of the accumulator with the operand.
    pub fn eor(&mut self)
        requires
            old(self)@.mode().has_value(),
        ensures
            final(self)@ == old(self)@.eor(),
    {
        let value: u8 = self.get_operand_value().unwrap();
        self.registers.a = self.registers.a ^ value;
        self.update_zero_and_negative_flags(self.registers.a);
    }

    /// LSR: shift right.
    pub fn lsr(&mut self)
        requires
            old(self)@.mode() is Accumulator || old(self)@.mode().has_address(),
        ensures
            final(self)@ == old(self)@.lsr(),
    {
        let value: u8 = self.shift_operand();
        self.replace_accumulator_or_memory_with_carry(shift_right(value));
    }

    /// PHA: pushes the accumulator. With the stack pointer at 0 nothing is
    /// pushed and a stack overflow is reported.
    pub fn pha(&mut self) -> (done: Result<(), CpuError>)
        ensures
            done is Ok <==> old(self)@.can_push(1),
            done is Ok ==> final(self)@ == old(self)@.pha(),
            done is Err ==> done == Err::<(), CpuError>(CpuError::StackOverflow) && final(self)@
                == old(self)@,
    {
        self.push_byte(self.registers.a)
    }

    /// JMP: jumps to the operand address.
    pub fn jmp(&mut self)
        requires
            old(self)@.mode().has_address(),
        ensures
            final(self)@ == old(self)@.jmp(),
    {
        let new_pc: u16 = self.get_operand_address().unwrap();
        self.registers.pc = new_pc;
    }

    /// BVC: branch when Overflow is clear.
    pub fn bvc(&mut self)
        requires
            old(self)@.mode().has_address(),
        ensures
            final(self)@ == old(self)@.branched(!old(self)@.flag(Flag::Overflow)),
    {
        self.branch_if(self.registers.flags.get(Flag::Overflow) == false);
    }

    /// CLI: clears InterruptDisable.
    pub fn cli(&mut self)
        ensures
            final(self)@ == old(self)@.with_flag(Flag::InterruptDisable, false),
    {
        self.registers.flags.set(Flag::InterruptDisable, false);
    }

    /// RTS: pops the return address and goes on at the address after it.
    /// With fewer than two bytes on the stack nothing is popped and a stack
    /// underflow is reported.
    pub fn rts(&mut self) -> (done: Result<(), CpuError>)
        ensures
            done is Ok <==> old(self)@.can_pop(2),
            done is Ok ==> final(self)@ == old(self)@.rts(),
            done is Err ==> done == Err::<(), CpuError>(CpuError::StackUnderflow) && final(self)@
                == old(self)@,
    {
        match self.pop_short() {
            Ok(address) => {
                self.registers.pc = address.wrapping_add(1);
                Ok(())
            },
            Err(error) => Err(error),
        }
    }

    /// ADC: adds the operand and the carry to the accumulator, in decimal
    /// when Decimal is set.
    pub fn adc(&mut self)
        requires
            old(self)@.mode().has_value(),
        ensures
            final(self)@ == old(self)@.adc(),
    {
        let value: u8 = self.get_operand_value().unwrap();
        if self.registers.flags.get(Flag::Decimal) {
            self.add_bcd(value);
        } else {
            self.add_binary(value);
        }
        self.update_zero_and_negative_flags(self.registers.a);
    }

    /// ROR: rotate right through the carry.
    pub fn ror(&mut self)
        requires
            old(self)@.mode() is Accumulator || old(self)@.mode().has_address(),
        ensures
            final(self)@ == old(self)@.ror(),
    {
        let value: u8 = self.shift_operand();
        let carry: bool = self.registers.flags.get(Flag::Carry);
        self.replace_accumulator_or_memory_with_carry(rotate_right(value, carry));
    }

    /// PLA: pops the accumulator and takes Zero and Negative from it. With
    /// the stack pointer at 0xFF nothing is popped and a stack underflow is
    /// reported.
    pub fn pla(&mut self) -> (done: Result<(), CpuError>)
        ensures
            done is Ok <==> old(self)@.can_pop(1),
            done is Ok ==> final(self)@ == old(self)@.pla(),
            done is Err ==> done == Err::<(), CpuError>(CpuError::StackUnderflow) && final(self)@
                == old(self)@,
    {
        match self.pop_byte() {
            Ok(value) => {
                self.registers.a = value;
                self.update_zero_and_negative_flags(value);
                Ok(())
            },
            Err(error) => Err(error),
        }
    }

    /// BVS: branch when Overflow is set.
    pub fn bvs(&mut self)
        requires
            old(self)@.mode().has_address(),
        ensures
            final(self)@ == old(self)@.branched(old(self)@.flag(Flag::Overflow)),
    {
        self.branch_if(self.registers.flags.get(Flag::Overflow) == true);
    }

    /// SEI: sets InterruptDisable.
    pub fn sei(&mut self)
        ensures
            final(self)@ == old(self)@.with_flag(Flag::InterruptDisable, true),
    {
        self.registers.flags.set(Flag::InterruptDisable, true);
    }

    /// STA: stores the accumulator at the operand address.
    pub fn sta(&mut self)
        requires
            old(self)@.mode().has_address(),
        ensures
            final(self)@ == old(self)@.sta(),
    {
        let address: u16 = self.get_operand_address().unwrap();
        self.write_memory(address, self.registers.a);
    }

    /// STY: stores Y at the operand address.
    pub fn sty(&mut self)
        requires
            old(self)@.mode().has_address(),
        ensures
            final(self)@ == old(self)@.sty(),
    {
        let address: u16 = self.get_operand_address().unwrap();
        self.write_memory(address, self.registers.y);
    }

    /// STX: stores X at the operand address.
    pub fn stx(&mut self)
        requires
            old(self)@.mode().has_address(),
        ensures
            final(self)@ == old(self)@.stx(),
    {
        let address: u16 = self.get_operand_address().unwrap();
        self.write_memory(address, self.registers.x);
    }

    /// DEY: Y goes down by one, from 0 to 0xFF.
    pub fn dey(&mut self)
        ensures
            final(self)@ == old(self)@.dey(),
    {
        self.registers.y = self.registers.y.wrapping_sub(1);
        self.update_zero_and_negative_flags(self.registers.y);
    }

    /// TXA: copies X to the accumulator.
    pub fn txa(&mut self)
        ensures
            final(self)@ == old(self)@.txa(),
    {
        self.registers.a = self.registers.x;
        self.update_zero_and_negative_flags(self.registers.a);
    }

    /// BCC: branch when Carry is clear.
    pub fn bcc(&mut self)
        requires
            old(self)@.mode().has_address(),
        ensures
            final(self)@ == old(self)@.branched(!old(self)@.flag(Flag::Carry)),
    {
        self.branch_if(self.registers.flags.get(Flag::Carry) == false)
    }

    /// TYA: copies Y to the accumulator.
    pub fn tya(&mut self)
        ensures
            final(self)@ == old(self)@.tya(),
    {
        self.registers.a = self.registers.y;
        self.update_zero_and_negative_flags(self.registers.a);
    }

    /// TXS: copies X to the stack pointer. No flag changes.
    pub fn txs(&mut self)
        ensures
            final(self)@ == old(self)@.txs(),
    {
        self.registers.sp = self.registers.x;
    }

    /// LDY: loads Y with the operand.
    pub fn ldy(&mut self)
        requires
            old(self)@.mode().has_value(),
        ensures
            final(self)@ == old(self)@.ldy(),
    {
        let operand: u8 = self.get_operand_value().unwrap();
        self.registers.y = operand;
        self.update_zero_and_negative_flags(operand);
    }

    /// LDA: loads the accumulator with the operand.
    pub fn lda(&mut self)
        requires
            old(self)@.mode().has_value(),
        ensures
            final(self)@ == old(self)@.lda(),
    {
        let operand: u8 = self.get_operand_value().unwrap();
        self.registers.a = operand;
        self.update_zero_and_negative_flags(operand);
    }

    /// LDX: loads X with the operand.
    pub fn ldx(&mut self)
        requires
            old(self)@.mode().has_value(),
        ensures
            final(self)@ == old(self)@.ldx(),
    {
        let operand: u8 = self.get_operand_value().unwrap();
        self.registers.x = operand;
        self.update_zero_and_negative_flags(operand);
    }

    /// TAY: copies the accumulator to Y.
    pub fn tay(&mut self)
        ensures
            final(self)@ == old(self)@.tay(),
    {
        self.registers.y = self.registers.a;
        self.update_zero_and_negative_flags(self.registers.y);
    }

    /// TAX: copies the accumulator to X.
    pub fn tax(&mut self)
        ensures
            final(self)@ == old(self)@.tax(),
    {
        self.registers.x = self.registers.a;
        self.update_zero_and_negative_flags(self.registers.x);
    }

    /// BCS: branch when Carry is set.
    pub fn bcs(&mut self)
        requires
            old(self)@.mode().has_address(),
        ensures
            final(self)@ == old(self)@.branched(old(self)@.flag(Flag::Carry)),
    {
        self.branch_if(self.registers.flags.get(Flag::Carry));
    }

    /// CLV: clears Overflow.
    pub fn clv(&mut self)
        ensures
            final(self)@ == old(self)@.with_flag(Flag::Overflow, false),
    {
        self.registers.flags.set(Flag::Overflow, false);
    }

    /// TSX: copies the stack pointer to X.
    pub fn tsx(&mut self)
        ensures
            final(self)@ == old(self)@.tsx(),
    {
        self.registers.x = self.registers.sp;
        self.update_zero_and_negative_flags(self.registers.x);
    }

    /// CPY: compares Y with the operand.
    pub fn cpy(&mut self)
        requires
            old(self)@.mode().has_value(),
        ensures
            final(self)@ == old(self)@.compared(old(self).registers.y),
    {
        self.compare_register_with_memory(self.registers.y);
    }

    /// CMP: compares the accumulator with the operand.
    pub fn cmp(&mut self)
        requires
            old(self)@.mode().has_value(),
        ensures
            final(self)@ == old(self)@.compared(old(self).registers.a),
    {
        self.compare_register_with_memory(self.registers.a);
    }

    /// DEC: the byte at the operand address goes down by one, from 0 to
    /// 0xFF.
    pub fn dec(&mut self)
        requires
            old(self)@.mode().has_address(),
        ensures
            final(self)@ == old(self)@.dec(),
    {
        let address: u16 = self.get_operand_address().unwrap();
        let new_value: u8 = self.read_memory(address).wrapping_sub(1);
        self.write_memory(address, new_value);
        self.update_zero_and_negative_flags(new_value);
    }

    /// INY: Y goes up by one, from 0xFF to 0.
    pub fn iny(&mut self)
        ensures
            final(self)@ == old(self)@.iny(),
    {
        self.registers.y = self.registers.y.wrapping_add(1);
        self.update_zero_and_negative_flags(self.registers.y);
    }

    /// DEX: X goes down by one, from 0 to 0xFF.
    pub fn dex(&mut self)
        ensures
            final(self)@ == old(self)@.dex(),
    {
        self.registers.x = self.registers.x.wrapping_sub(1);
        self.update_zero_and_negative_flags(self.registers.x);
    }

    /// BNE: branch when Zero is clear.
    pub fn bne(&mut self)
        requires
            old(self)@.mode().has_address(),
        ensures
            final(self)@ == old(self)@.branched(!old(self)@.flag(Flag::Zero)),
    {
        self.branch_if(self.registers.flags.get(Flag::Zero) == false);
    }

    /// CLD: clears Decimal.
    pub fn cld(&mut self)
        ensures
            final(self)@ == old(self)@.with_flag(Flag::Decimal, false),
    {
        self.registers.flags.set(Flag::Decimal, false);
    }

    /// CPX: compares X with the operand.
    pub fn cpx(&mut self)
        requires
            old(self)@.mode().has_value(),
        ensures
            final(self)@ == old(self)@.compared(old(self).registers.x),
    {
        self.compare_register_with_memory(self.registers.x);
    }

    /// SBC: subtracts the operand and the borrow from the accumulator, in
    /// decimal when Decimal is set.
    pub fn sbc(&mut self)
        requires
            old(self)@.mode().has_value(),
        ensures
            final(self)@ == old(self)@.sbc(),
    {
        let value: u8 = self.get_operand_value().unwrap();
        if self.registers.flags.get(Flag::Decimal) {
            self.sbc_bcd(value);
        } else {
            self.sbc_binary(value);
        }
        self.update_zero_and_negative_flags(self.registers.a);
    }

    /// INC: the byte at the operand address goes up by one, from 0xFF to
    /// 0.
    pub fn inc(&mut self)
        requires
            old(self)@.mode().has_address(),
        ensures
            final(self)@ == old(self)@.inc(),
    {
        let address: u16 = self.get_operand_address().unwrap();
        let new_value: u8 = self.read_memory(address).wrapping_add(1);
        self.write_memory(address, new_value);
        self.update_zero_and_negative_flags(new_value);
    }

    /// INX: X goes up by one, from 0xFF to 0.
    pub fn inx(&mut self)
        ensures
            final(self)@ == old(self)@.inx(),
    {
        self.registers.x = self.registers.x.wrapping_add(1);
        self.update_zero_and_negative_flags(self.registers.x);
    }

    /// NOP: does nothing.
    pub fn nop(&mut self)
        ensures
            final(self)@ == old(self)@,
    {
    }

    /// BEQ: branch when Zero is set.
    pub fn beq(&mut self)
        requires
            old(self)@.mode().has_address(),
        ensures
            final(self)@ == old(self)@.branched(old(self)@.flag(Flag::Zero)),
    {
        self.branch_if(self.registers.flags.get(Flag::Zero) == true);
    }

    /// SED: sets Decimal.
    pub fn sed(&mut self)
        ensures
            final(self)@ == old(self)@.with_flag(Flag::Decimal, true),
    {
        self.registers.flags.set(Flag::Decimal, true);
    }
}

} // verus!
