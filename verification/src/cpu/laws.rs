//! Laws that the instruction semantics obey, proved over the state model.

use vstd::prelude::*;
use crate::cpu::alu::{add_binary_result, carry_value, compare_result, sign_overflow};
use crate::cpu::semantics::INTERRUPT_CYCLES;
use crate::cpu::state::{next_in_page, offset_address, pushed_status, stack_address, Interrupt,
    State};
use crate::instruction::{AddressingMode, Instruction, InstructionType};
use crate::instruction_table::{descriptor, lemma_descriptor_well_formed};
use crate::memory::next_address;
use crate::registers::{Flag, Flags};
use crate::util::{bit_of, lemma_with_bit, lemma_word_bytes, with_bit, word_of};

verus! {

/// Zero and Negative after an operation read as the result says, and no
/// other flag changes.
pub proof fn lemma_with_nz(flags: Flags, value: u8)
    ensures
        flags.with_nz(value).is_set(Flag::Zero) == (value == 0),
        flags.with_nz(value).is_set(Flag::Negative) == (value >= 0x80),
        forall|other: Flag|
            other != Flag::Zero && other != Flag::Negative ==> #[trigger] flags.with_nz(
                value,
            ).is_set(other) == flags.is_set(other),
        bit_of(flags.with_nz(value).0, 5) == bit_of(flags.0, 5),
{
    flags.lemma_with(Flag::Zero, value == 0);
    flags.with(Flag::Zero, value == 0).lemma_with(Flag::Negative, value >= 0x80);
}

/// What an instruction leaves alone: only a control transfer assigns the
/// program counter, only BRK charges cycles of its own, and no instruction
/// touches the interrupt lines.
pub proof fn lemma_execute_frame(state: State, instruction_type: InstructionType)
    ensures
        !instruction_type.transfers_control() ==> state.execute(instruction_type).registers.pc
            == state.registers.pc,
        !(instruction_type is BRK) ==> state.execute(instruction_type).cycles == state.cycles,
        instruction_type is BRK ==> state.execute(instruction_type).cycles
            == state.with_cycles_added(INTERRUPT_CYCLES).cycles,
        state.execute(instruction_type).irq_line == state.irq_line,
        state.execute(instruction_type).nmi_edge == state.nmi_edge,
        state.execute(instruction_type).current_instruction == state.current_instruction,
{
    reveal(State::execute);
}

/// The stack pointer always names a byte of page one: whatever a step
/// leaves in it, the stack address lies between 0x0100 and 0x01FF.
pub proof fn law_stack_stays_in_page_one(state: State)
    ensures
        0 <= state.stepped().registers.sp <= 0xFF,
        0x0100 <= stack_address(state.stepped().registers.sp) <= 0x01FF,
{
}

/// Every address that the processor computes lies between 0 and 0xFFFF,
/// because each computation wraps where it could leave that range: an offset
/// is added modulo 65536, the address after 0xFFFF is 0, an index in page
/// zero stays in page zero, and the high byte of a pointer that is read
/// inside a page comes from that page.
pub proof fn law_addresses_wrap(state: State, address: u16, offset: int, index: u8)
    ensures
        0 <= offset_address(address, offset) <= 0xFFFF,
        offset_address(address, offset) == (address + offset) % 0x10000,
        0 <= next_address(address) <= 0xFFFF,
        next_address(address) == (address + 1) % 0x10000,
        state.indexed_zero_page_address(index) <= 0xFF,
        state.indexed_zero_page_address(index) == (state.operand_byte() + index) % 256,
        next_in_page(address) / 256 == address / 256,
        next_in_page(address) % 256 == (address + 1) % 256,
        state.operand_address() matches Some(effective) ==> 0 <= effective <= 0xFFFF,
{
}

/// An instruction that is no control transfer moves the program counter by
/// one plus the size of its operand, modulo 65536, whether it can run or
/// not; without wraparound the program counter strictly grows. A step leaves
/// it there unless it ends by entering an interrupt routine.
pub proof fn law_program_counter_advances(state: State)
    requires
        state.wf(),
        !state.halted,
        !state.fetched().instruction_type.transfers_control(),
    ensures
        state.executed().registers.pc == offset_address(
            state.registers.pc,
            1 + state.fetched().mode.operand_bytes(),
        ),
        state.registers.pc + 1 + state.fetched().mode.operand_bytes() <= 0xFFFF
            ==> state.executed().registers.pc == state.registers.pc + 1
            + state.fetched().mode.operand_bytes() && state.executed().registers.pc
            > state.registers.pc,
        state.executed().pending_interrupt() is None ==> state.stepped().registers.pc
            == state.executed().registers.pc,
{
    lemma_execute_frame(state.decoded(), state.fetched().instruction_type);
}

/// The status byte that PHP, BRK and an interrupt push reads 1 at the
/// reserved bit 5, and Break as the source says; every other flag is pushed
/// as it is.
pub proof fn law_pushed_status(flags: Flags, with_break: bool)
    ensures
        bit_of(pushed_status(flags, with_break), 5),
        bit_of(pushed_status(flags, with_break), 4) == with_break,
        forall|flag: Flag|
            flag != Flag::Break ==> #[trigger] Flags(pushed_status(flags, with_break)).is_set(flag)
                == flags.is_set(flag),
{
    let reserved = with_bit(flags.0, 5, true);
    lemma_with_bit(flags.0, 5, true, 5);
    lemma_with_bit(reserved, 4, with_break, 5);
    lemma_with_bit(reserved, 4, with_break, 4);
    assert forall|flag: Flag| flag != Flag::Break implies #[trigger] Flags(
        pushed_status(flags, with_break),
    ).is_set(flag) == flags.is_set(flag) by {
        lemma_with_bit(flags.0, 5, true, flag.bit());
        lemma_with_bit(reserved, 4, with_break, flag.bit());
    }
}

/// What PHP leaves on the stack reads 1 at the reserved bit 5.
pub proof fn law_php_pushes_reserved_bit(state: State)
    requires
        state.wf(),
        state.can_push(1),
    ensures
        bit_of(state.php().read(stack_address(state.registers.sp)), 5),
        bit_of(state.php().read(stack_address(state.registers.sp)), 4),
{
    law_pushed_status(state.registers.flags, true);
}

/// What entering an interrupt routine leaves on the stack: the program
/// counter, high byte first, and below it a status byte that reads 1 at the
/// reserved bit 5 and has Break set for BRK only.
pub proof fn law_interrupt_pushes(state: State, source: Interrupt)
    requires
        state.wf(),
        state.can_push(3),
    ensures
        state.interrupted(source).registers.sp == state.registers.sp - 3,
        word_of(
            state.interrupted(source).read(stack_address((state.registers.sp - 1) as u8)),
            state.interrupted(source).read(stack_address(state.registers.sp)),
        ) == state.registers.pc,
        bit_of(state.interrupted(source).read(stack_address((state.registers.sp - 2) as u8)), 5),
        bit_of(state.interrupted(source).read(stack_address((state.registers.sp - 2) as u8)), 4)
            == (source is Break),
        state.interrupted(source).flag(Flag::InterruptDisable),
        state.interrupted(source).registers.pc == state.read_short(source.vector()),
{
    law_pushed_status(state.registers.flags, source is Break);
    lemma_word_bytes(0, 0, state.registers.pc);
    state.registers.flags.lemma_with(Flag::InterruptDisable, true);
}

/// A step never takes cycles back: as long as the 32-bit counter does not
/// wrap, it does not decrease. A step charges at most 21 cycles: seven for
/// the instruction and seven for each interrupt routine entered.
pub proof fn law_cycles_do_not_decrease(state: State)
    requires
        state.wf(),
        state.cycles + 3 * INTERRUPT_CYCLES <= u32::MAX,
    ensures
        state.stepped().cycles >= state.cycles,
        state.stepped().cycles <= state.cycles + 3 * INTERRUPT_CYCLES,
{
    lemma_execute_frame(state.decoded(), state.fetched().instruction_type);
    lemma_descriptor_well_formed(state.read(state.registers.pc));
}

/// Loading an image changes the bytes of the image and no other: every
/// address outside the image reads as before, every address inside reads
/// the byte of the image.
pub proof fn law_load_stays_in_image(state: State, executable: Seq<u8>, address: u16, other: u16)
    requires
        state.wf(),
    ensures
        state.loaded(executable, address).wf(),
        state.loaded(executable, address).registers == state.registers,
        !(address <= other < address + executable.len()) ==> state.loaded(
            executable,
            address,
        ).read(other) == state.read(other),
        address <= other < address + executable.len() ==> state.loaded(executable, address).read(
            other,
        ) == executable[other - address],
{
}

/// PHA followed by PLA leaves the accumulator, the stack pointer and the
/// other registers as they were; Zero and Negative then describe the
/// accumulator. PLA finds the byte to pop.
pub proof fn law_pha_pla(state: State)
    requires
        state.wf(),
        state.can_push(1),
    ensures
        state.pha().can_pop(1),
        state.pha().pla().registers.a == state.registers.a,
        state.pha().pla().registers.sp == state.registers.sp,
        state.pha().pla().registers.x == state.registers.x,
        state.pha().pla().registers.y == state.registers.y,
        state.pha().pla().registers.pc == state.registers.pc,
        state.pha().pla().flag(Flag::Zero) == (state.registers.a == 0),
        state.pha().pla().flag(Flag::Negative) == (state.registers.a >= 0x80),
        forall|other: Flag|
            other != Flag::Zero && other != Flag::Negative ==> #[trigger] state.pha().pla().flag(
                other,
            ) == state.flag(other),
{
    lemma_with_nz(state.registers.flags, state.registers.a);
}

/// PHP followed by PLP leaves every flag, Break among them, and every
/// register as it was. The status byte itself is the old one with the
/// reserved bit 5 set, so a status byte that has the bit set comes back
/// unchanged.
pub proof fn law_php_plp(state: State)
    requires
        state.wf(),
        state.can_push(1),
    ensures
        state.php().can_pop(1),
        forall|flag: Flag| #[trigger] state.php().plp().flag(flag) == state.flag(flag),
        state.php().plp().registers.flags.0 == with_bit(state.registers.flags.0, 5, true),
        bit_of(state.registers.flags.0, 5) ==> state.php().plp().registers == state.registers,
        state.php().plp().registers.a == state.registers.a,
        state.php().plp().registers.sp == state.registers.sp,
        state.php().plp().registers.x == state.registers.x,
        state.php().plp().registers.y == state.registers.y,
        state.php().plp().registers.pc == state.registers.pc,
{
    let flags = state.registers.flags;
    let reserved = with_bit(flags.0, 5, true);
    let pushed = pushed_status(flags, true);
    let restored = with_bit(pushed, 4, bit_of(flags.0, 4));
    assert(state.php().plp().registers.flags.0 == restored);
    assert(restored == reserved) by {
        let old = flags.0;
        assert(((old >> 4u8) & 1 == 1) ==> ((((old | (1u8 << 5u8)) | (1u8 << 4u8)) | (1u8 << 4u8))
            == (old | (1u8 << 5u8)))) by (bit_vector);
        assert(!((old >> 4u8) & 1 == 1) ==> ((((old | (1u8 << 5u8)) | (1u8 << 4u8)) & !(1u8
            << 4u8)) == (old | (1u8 << 5u8)))) by (bit_vector);
    }
    assert forall|flag: Flag| #[trigger] state.php().plp().flag(flag) == state.flag(flag) by {
        lemma_with_bit(flags.0, 5, true, flag.bit());
    }
    crate::util::lemma_with_bit_same(flags.0, 5);
}

/// ADC in binary mode: the accumulator takes the sum of accumulator,
/// operand and carry modulo 256, Carry says that the sum exceeded 255, and
/// Overflow is the overflow predicate on accumulator, operand and result,
/// which says that the signed sum left the range of a signed byte. Zero and
/// Negative describe the result.
pub proof fn law_adc_binary(state: State)
    requires
        !state.flag(Flag::Decimal),
    ensures
        state.adc().registers.a == (state.registers.a + state.value() + carry_value(
            state.flag(Flag::Carry),
        )) % 256,
        state.adc().flag(Flag::Carry) <==> state.registers.a + state.value() + carry_value(
            state.flag(Flag::Carry),
        ) > 255,
        state.adc().flag(Flag::Overflow) <==> sign_overflow(
            state.registers.a,
            state.value(),
            state.adc().registers.a,
        ),
        state.adc().flag(Flag::Overflow) <==> {
            let signed_sum = crate::util::signed_of(state.registers.a) + crate::util::signed_of(
                state.value(),
            ) + carry_value(state.flag(Flag::Carry));
            signed_sum < -128 || signed_sum > 127
        },
        state.adc().flag(Flag::Zero) <==> state.adc().registers.a == 0,
        state.adc().flag(Flag::Negative) <==> state.adc().registers.a >= 0x80,
{
    let sum = add_binary_result(state.registers.a, state.value(), state.flag(Flag::Carry));
    let flags = state.registers.flags;
    flags.lemma_with(Flag::Carry, sum.carry);
    flags.with(Flag::Carry, sum.carry).lemma_with(Flag::Overflow, sum.overflow);
    lemma_with_nz(flags.with(Flag::Carry, sum.carry).with(Flag::Overflow, sum.overflow), sum.value);
    crate::cpu::alu::lemma_overflow_is_signed_overflow(
        state.registers.a,
        state.value(),
        state.flag(Flag::Carry),
    );
}

/// A comparison sets Carry exactly when the register is not below the
/// operand, Zero exactly when they are equal, and Negative from bit 7 of
/// their difference modulo 256. It changes no register and no other flag.
pub proof fn law_compare(state: State, register: u8)
    ensures
        state.compared(register).flag(Flag::Carry) <==> register >= state.value(),
        state.compared(register).flag(Flag::Zero) <==> register == state.value(),
        state.compared(register).flag(Flag::Negative) <==> (register - state.value()) % 256 >= 128,
        forall|other: Flag|
            other != Flag::Carry && other != Flag::Zero && other != Flag::Negative
                ==> #[trigger] state.compared(register).flag(other) == state.flag(other),
        state.compared(register).registers.a == state.registers.a,
        state.compared(register).registers.x == state.registers.x,
        state.compared(register).registers.y == state.registers.y,
        state.compared(register).registers.sp == state.registers.sp,
        state.compared(register).registers.pc == state.registers.pc,
        state.compared(register).memory == state.memory,
{
    let comparison = compare_result(register, state.value());
    let flags = state.registers.flags;
    flags.lemma_with(Flag::Carry, comparison.carry);
    flags.with(Flag::Carry, comparison.carry).lemma_with(Flag::Zero, comparison.zero);
    flags.with(Flag::Carry, comparison.carry).with(Flag::Zero, comparison.zero).lemma_with(
        Flag::Negative,
        comparison.negative,
    );
}

/// JSR followed by RTS goes on at the byte after the JSR instruction, two
/// bytes after the operand at which JSR found the program counter, and
/// leaves the stack pointer as it was. RTS finds the word to pop.
pub proof fn law_jsr_rts(state: State)
    requires
        state.wf(),
        state.can_push(2),
    ensures
        state.jsr().can_pop(2),
        state.jsr().rts().registers.pc == offset_address(state.registers.pc, 2),
        state.jsr().rts().registers.sp == state.registers.sp,
{
    lemma_word_bytes(0, 0, state.return_address());
}

/// JMP through a pointer at the last byte of a page takes the high byte of
/// its target from the first byte of that same page, not from the next
/// page.
pub proof fn law_jmp_indirect_wraps_in_page(state: State)
    requires
        state.wf(),
        state.mode() == AddressingMode::Indirect,
        state.operand_short() % 256 == 0xFF,
    ensures
        state.jmp().registers.pc == word_of(
            state.read(state.operand_short()),
            state.read((state.operand_short() - 0xFF) as u16),
        ),
{
}

/// JMP through a pointer that does not end a page reads the two bytes of
/// its target one after the other.
pub proof fn law_jmp_indirect_inside_page(state: State)
    requires
        state.wf(),
        state.mode() == AddressingMode::Indirect,
        state.operand_short() % 256 != 0xFF,
    ensures
        state.jmp().registers.pc == state.read_short(state.operand_short()),
        next_in_page(state.operand_short()) == state.operand_short() + 1,
{
}

/// Whether a step of this state looks at quiet interrupt lines whatever the
/// instruction does to the flags: no NMI edge is latched and the IRQ line is
/// high.
pub open spec fn lines_quiet(state: State) -> bool {
    !state.nmi_edge && state.irq_line is High
}

/// The descriptors of the opcodes that the laws on whole steps speak of.
pub proof fn lemma_stack_opcodes()
    ensures
        descriptor(0x48) == Instruction::entry(
            0x48,
            InstructionType::PHA,
            AddressingMode::Implied,
            3,
            false,
        ),
        descriptor(0x68) == Instruction::entry(
            0x68,
            InstructionType::PLA,
            AddressingMode::Implied,
            4,
            false,
        ),
        descriptor(0x08) == Instruction::entry(
            0x08,
            InstructionType::PHP,
            AddressingMode::Implied,
            3,
            false,
        ),
        descriptor(0x28) == Instruction::entry(
            0x28,
            InstructionType::PLP,
            AddressingMode::Implied,
            4,
            false,
        ),
        descriptor(0x20) == Instruction::entry(
            0x20,
            InstructionType::JSR,
            AddressingMode::Absolute,
            6,
            false,
        ),
        descriptor(0x60) == Instruction::entry(
            0x60,
            InstructionType::RTS,
            AddressingMode::Implied,
            6,
            false,
        ),
{
    reveal(descriptor);
}

/// What running the stack and subroutine instructions means.
pub proof fn lemma_execute_stack_instructions(state: State)
    ensures
        state.execute(InstructionType::PHA) == state.pha(),
        state.execute(InstructionType::PLA) == state.pla(),
        state.execute(InstructionType::PHP) == state.php(),
        state.execute(InstructionType::PLP) == state.plp(),
        state.execute(InstructionType::JSR) == state.jsr(),
        state.execute(InstructionType::RTS) == state.rts(),
{
    reveal(State::execute);
}

/// A step at the opcode of PHA pushes the accumulator, moves the program
/// counter by one and charges three cycles.
pub proof fn lemma_step_pha(state: State)
    requires
        state.wf(),
        !state.halted,
        lines_quiet(state),
        state.read(state.registers.pc) == 0x48,
        state.can_push(1),
    ensures
        state.step_fault() is None,
        state.stepped() == (State {
            current_instruction: Some(descriptor(0x48)),
            ..state.with_pc(offset_address(state.registers.pc, 1)).pha().with_cycles_added(3)
        }),
{
    lemma_execute_stack_instructions(state.decoded());
    lemma_stack_opcodes();
}

/// A step at the opcode of PLA pops the accumulator, moves the program
/// counter by one and charges four cycles.
pub proof fn lemma_step_pla(state: State)
    requires
        state.wf(),
        !state.halted,
        lines_quiet(state),
        state.read(state.registers.pc) == 0x68,
        state.can_pop(1),
    ensures
        state.step_fault() is None,
        state.stepped() == (State {
            current_instruction: Some(descriptor(0x68)),
            ..state.with_pc(offset_address(state.registers.pc, 1)).pla().with_cycles_added(4)
        }),
{
    lemma_execute_stack_instructions(state.decoded());
    lemma_stack_opcodes();
}

/// Two steps that run PHA and then PLA leave the accumulator and the stack
/// pointer as they were, with Zero and Negative describing the accumulator,
/// and the program counter two bytes further. The push must not land on the
/// opcode of PLA.
pub proof fn law_pha_pla_steps(state: State)
    requires
        state.wf(),
        !state.halted,
        lines_quiet(state),
        state.read(state.registers.pc) == 0x48,
        state.read(offset_address(state.registers.pc, 1)) == 0x68,
        stack_address(state.registers.sp) != offset_address(state.registers.pc, 1),
        state.can_push(1),
    ensures
        state.step_fault() is None,
        state.stepped().step_fault() is None,
        state.stepped().stepped().registers.a == state.registers.a,
        state.stepped().stepped().registers.sp == state.registers.sp,
        state.stepped().stepped().registers.pc == offset_address(state.registers.pc, 2),
        state.stepped().stepped().flag(Flag::Zero) == (state.registers.a == 0),
        state.stepped().stepped().flag(Flag::Negative) == (state.registers.a >= 0x80),
{
    lemma_step_pha(state);
    lemma_step_pla(state.stepped());
    lemma_with_nz(state.registers.flags, state.registers.a);
}

/// A step at the opcode of PHP pushes the status byte, moves the program
/// counter by one and charges three cycles.
pub proof fn lemma_step_php(state: State)
    requires
        state.wf(),
        !state.halted,
        lines_quiet(state),
        state.read(state.registers.pc) == 0x08,
        state.can_push(1),
    ensures
        state.step_fault() is None,
        state.stepped() == (State {
            current_instruction: Some(descriptor(0x08)),
            ..state.with_pc(offset_address(state.registers.pc, 1)).php().with_cycles_added(3)
        }),
{
    lemma_execute_stack_instructions(state.decoded());
    lemma_stack_opcodes();
}

/// A step at the opcode of PLP pops the status byte, moves the program
/// counter by one and charges four cycles.
pub proof fn lemma_step_plp(state: State)
    requires
        state.wf(),
        !state.halted,
        lines_quiet(state),
        state.read(state.registers.pc) == 0x28,
        state.can_pop(1),
    ensures
        state.step_fault() is None,
        state.stepped() == (State {
            current_instruction: Some(descriptor(0x28)),
            ..state.with_pc(offset_address(state.registers.pc, 1)).plp().with_cycles_added(4)
        }),
{
    lemma_execute_stack_instructions(state.decoded());
    lemma_stack_opcodes();
}

/// Two steps that run PHP and then PLP leave every flag, Break among them,
/// and the stack pointer as they were; the status byte is the old one with
/// the reserved bit 5 set. The push must not land on the opcode of PLP.
pub proof fn law_php_plp_steps(state: State)
    requires
        state.wf(),
        !state.halted,
        lines_quiet(state),
        state.read(state.registers.pc) == 0x08,
        state.read(offset_address(state.registers.pc, 1)) == 0x28,
        stack_address(state.registers.sp) != offset_address(state.registers.pc, 1),
        state.can_push(1),
    ensures
        state.step_fault() is None,
        state.stepped().step_fault() is None,
        forall|flag: Flag| #[trigger] state.stepped().stepped().flag(flag) == state.flag(flag),
        state.stepped().stepped().registers.flags.0 == with_bit(state.registers.flags.0, 5, true),
        state.stepped().stepped().registers.sp == state.registers.sp,
        state.stepped().stepped().registers.pc == offset_address(state.registers.pc, 2),
{
    lemma_step_php(state);
    lemma_step_plp(state.stepped());
    let started = state.with_pc(offset_address(state.registers.pc, 1));
    law_php_plp(started);
    assert(state.stepped().stepped().registers.flags == started.php().plp().registers.flags);
    assert forall|flag: Flag| #[trigger]
        state.stepped().stepped().flag(flag) == state.flag(flag) by {
        assert(started.php().plp().flag(flag) == started.flag(flag));
    }
}

/// A step at the opcode of JSR pushes the address of the last byte of the
/// instruction and goes on at the address that follows the opcode.
pub proof fn lemma_step_jsr(state: State)
    requires
        state.wf(),
        !state.halted,
        lines_quiet(state),
        state.read(state.registers.pc) == 0x20,
        state.can_push(2),
    ensures
        state.step_fault() is None,
        state.stepped().registers.pc == state.read_short(offset_address(state.registers.pc, 1)),
        state.stepped().registers.sp == state.registers.sp - 2,
        state.stepped().wf(),
        !state.stepped().halted,
        lines_quiet(state.stepped()),
        state.stepped().top_short() == offset_address(state.registers.pc, 2),
        forall|address: u16|
            address != stack_address(state.registers.sp) && address != stack_address(
                (state.registers.sp - 1) as u8,
            ) ==> #[trigger] state.stepped().read(address) == state.read(address),
{
    lemma_execute_stack_instructions(state.decoded());
    lemma_stack_opcodes();
    lemma_word_bytes(0, 0, offset_address(state.registers.pc, 2));
}

/// A step at the opcode of RTS pops the return address and goes on at the
/// address after it.
pub proof fn lemma_step_rts(state: State)
    requires
        state.wf(),
        !state.halted,
        lines_quiet(state),
        state.read(state.registers.pc) == 0x60,
        state.can_pop(2),
    ensures
        state.step_fault() is None,
        state.stepped().registers.pc == offset_address(state.top_short(), 1),
        state.stepped().registers.sp == state.registers.sp + 2,
{
    lemma_execute_stack_instructions(state.decoded());
    lemma_stack_opcodes();
}

/// Two steps that run JSR and then, at its target, RTS go on at the byte
/// after the JSR instruction and leave the stack pointer as it was. The
/// return address must not be pushed onto the opcode of RTS.
pub proof fn law_jsr_rts_steps(state: State)
    requires
        state.wf(),
        !state.halted,
        lines_quiet(state),
        state.read(state.registers.pc) == 0x20,
        state.can_push(2),
        state.read(state.read_short(offset_address(state.registers.pc, 1))) == 0x60,
        state.read_short(offset_address(state.registers.pc, 1)) != stack_address(
            state.registers.sp,
        ),
        state.read_short(offset_address(state.registers.pc, 1)) != stack_address(
            (state.registers.sp - 1) as u8,
        ),
    ensures
        state.step_fault() is None,
        state.stepped().step_fault() is None,
        state.stepped().stepped().registers.pc == offset_address(state.registers.pc, 3),
        state.stepped().stepped().registers.sp == state.registers.sp,
{
    lemma_step_jsr(state);
    lemma_step_rts(state.stepped());
}

} // verus!
