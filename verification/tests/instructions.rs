use rs_6502::cpu::Cpu;
use rs_6502::error::CpuError;
use rs_6502::memory::Memory;
use rs_6502::registers::Flag;

fn cpu_with(program: &[u8]) -> Box<Cpu> {
    let mut cpu: Box<Cpu> = Box::new(Cpu::new());
    cpu.load_executable(program, 0x0600).expect("the program fits");
    cpu.init_registers();
    cpu
}

fn run(cpu: &mut Cpu, steps: usize) {
    for _ in 0..steps {
        assert_eq!(cpu.step(), Ok(()));
    }
}

fn flag(cpu: &Cpu, flag: Flag) -> bool {
    cpu.registers.flags.get(flag)
}

#[test]
fn loads_set_zero_and_negative() {
    let mut cpu = cpu_with(&[0xA9, 0x00, 0xA2, 0x80, 0xA0, 0x7F]);
    run(&mut cpu, 1);
    assert_eq!(cpu.registers.a, 0x00);
    assert!(flag(&cpu, Flag::Zero));
    assert!(!flag(&cpu, Flag::Negative));
    run(&mut cpu, 1);
    assert_eq!(cpu.registers.x, 0x80);
    assert!(!flag(&cpu, Flag::Zero));
    assert!(flag(&cpu, Flag::Negative));
    run(&mut cpu, 1);
    assert_eq!(cpu.registers.y, 0x7F);
    assert!(!flag(&cpu, Flag::Zero));
    assert!(!flag(&cpu, Flag::Negative));
    assert_eq!(cpu.registers.pc, 0x0606);
    assert_eq!(cpu.cycles, 6);
}

#[test]
fn loads_through_memory() {
    // LDA $10 ; LDX $1234 ; LDY $10,X
    let mut cpu = cpu_with(&[0xA5, 0x10, 0xAE, 0x34, 0x12, 0xB4, 0x10]);
    cpu.memory.write_byte(0x0010, 0x11);
    cpu.memory.write_byte(0x1234, 0x02);
    cpu.memory.write_byte(0x0012, 0x33);
    run(&mut cpu, 3);
    assert_eq!(cpu.registers.a, 0x11);
    assert_eq!(cpu.registers.x, 0x02);
    assert_eq!(cpu.registers.y, 0x33);
    assert_eq!(cpu.cycles, 3 + 4 + 4);
    assert_eq!(cpu.registers.pc, 0x0607);
}

#[test]
fn stores_write_the_named_register() {
    // STA $20 ; STX $21 ; STY $22 ; STA $3000,X ; STA ($40),Y
    let mut cpu = cpu_with(&[0x85, 0x20, 0x86, 0x21, 0x84, 0x22, 0x9D, 0x00, 0x30, 0x91, 0x40]);
    cpu.registers.a = 0xAA;
    cpu.registers.x = 0xBB;
    cpu.registers.y = 0xCC;
    cpu.memory.write_short(0x0040, 0x5000);
    let flags = cpu.registers.flags;
    run(&mut cpu, 5);
    assert_eq!(cpu.memory.read_byte(0x0020), 0xAA);
    assert_eq!(cpu.memory.read_byte(0x0021), 0xBB);
    assert_eq!(cpu.memory.read_byte(0x0022), 0xCC);
    assert_eq!(cpu.memory.read_byte(0x30BB), 0xAA);
    assert_eq!(cpu.memory.read_byte(0x50CC), 0xAA);
    assert_eq!(cpu.registers.flags, flags);
    assert_eq!(cpu.cycles, 3 + 3 + 3 + 5 + 6);
}

#[test]
fn transfers() {
    // TAX ; TAY ; TXA ; TYA ; TSX ; TXS
    let mut cpu = cpu_with(&[0xAA, 0xA8, 0x8A, 0x98, 0xBA, 0x9A]);
    cpu.registers.a = 0x80;
    run(&mut cpu, 1);
    assert_eq!(cpu.registers.x, 0x80);
    assert!(flag(&cpu, Flag::Negative));
    cpu.registers.a = 0x00;
    run(&mut cpu, 1);
    assert_eq!(cpu.registers.y, 0x00);
    assert!(flag(&cpu, Flag::Zero));
    assert!(!flag(&cpu, Flag::Negative));
    cpu.registers.x = 0x12;
    run(&mut cpu, 1);
    assert_eq!(cpu.registers.a, 0x12);
    assert!(!flag(&cpu, Flag::Zero));
    cpu.registers.y = 0x90;
    run(&mut cpu, 1);
    assert_eq!(cpu.registers.a, 0x90);
    assert!(flag(&cpu, Flag::Negative));
    cpu.registers.sp = 0x00;
    run(&mut cpu, 1);
    assert_eq!(cpu.registers.x, 0x00);
    assert!(flag(&cpu, Flag::Zero));
    cpu.registers.x = 0x80;
    let flags = cpu.registers.flags;
    run(&mut cpu, 1);
    assert_eq!(cpu.registers.sp, 0x80);
    assert_eq!(cpu.registers.flags, flags);
    assert_eq!(cpu.cycles, 12);
}

#[test]
fn logic() {
    // AND #$0F ; ORA #$80 ; EOR #$FF
    let mut cpu = cpu_with(&[0x29, 0x0F, 0x09, 0x80, 0x49, 0xFF]);
    cpu.registers.a = 0x3C;
    run(&mut cpu, 1);
    assert_eq!(cpu.registers.a, 0x0C);
    assert!(!flag(&cpu, Flag::Zero));
    run(&mut cpu, 1);
    assert_eq!(cpu.registers.a, 0x8C);
    assert!(flag(&cpu, Flag::Negative));
    run(&mut cpu, 1);
    assert_eq!(cpu.registers.a, 0x73);
    assert!(!flag(&cpu, Flag::Negative));

    let mut cpu = cpu_with(&[0x29, 0x00]);
    cpu.registers.a = 0xFF;
    run(&mut cpu, 1);
    assert_eq!(cpu.registers.a, 0x00);
    assert!(flag(&cpu, Flag::Zero));
}

#[test]
fn bit_test() {
    let mut cpu = cpu_with(&[0x24, 0x10, 0x2C, 0x00, 0x20]);
    cpu.memory.write_byte(0x0010, 0xC0);
    cpu.memory.write_byte(0x2000, 0x01);
    cpu.registers.a = 0x3F;
    run(&mut cpu, 1);
    assert!(flag(&cpu, Flag::Negative));
    assert!(flag(&cpu, Flag::Overflow));
    assert!(flag(&cpu, Flag::Zero));
    assert_eq!(cpu.registers.a, 0x3F);
    run(&mut cpu, 1);
    assert!(!flag(&cpu, Flag::Negative));
    assert!(!flag(&cpu, Flag::Overflow));
    assert!(!flag(&cpu, Flag::Zero));
    assert_eq!(cpu.registers.a, 0x3F);
}

#[test]
fn adc_and_sbc_in_binary() {
    // ADC #$01 ; SBC #$01
    let mut cpu = cpu_with(&[0x69, 0x01, 0xE9, 0x01]);
    cpu.registers.a = 0xFF;
    cpu.registers.flags.set(Flag::Carry, false);
    run(&mut cpu, 1);
    assert_eq!(cpu.registers.a, 0x00);
    assert!(flag(&cpu, Flag::Carry));
    assert!(flag(&cpu, Flag::Zero));
    assert!(!flag(&cpu, Flag::Overflow));
    assert!(!flag(&cpu, Flag::Negative));
    run(&mut cpu, 1);
    assert_eq!(cpu.registers.a, 0xFF);
    assert!(!flag(&cpu, Flag::Carry));
    assert!(flag(&cpu, Flag::Negative));
    assert!(!flag(&cpu, Flag::Zero));
}

#[test]
fn sbc_in_decimal() {
    let mut cpu = cpu_with(&[0xE9, 0x27]);
    cpu.registers.a = 0x42;
    cpu.registers.flags.set(Flag::Decimal, true);
    cpu.registers.flags.set(Flag::Carry, true);
    run(&mut cpu, 1);
    assert_eq!(cpu.registers.a, 0x15);
    assert!(flag(&cpu, Flag::Carry));
}

#[test]
fn add_binary_helper_reports_carry_and_overflow() {
    let mut cpu: Box<Cpu> = Box::new(Cpu::new());
    cpu.registers.a = 0x80;
    cpu.registers.flags.set(Flag::Carry, true);
    cpu.add_binary(0x80);
    assert_eq!(cpu.registers.a, 0x01);
    assert!(flag(&cpu, Flag::Carry));
    assert!(flag(&cpu, Flag::Overflow));
    cpu.sbc_binary(0x01);
    assert_eq!(cpu.registers.a, 0x00);
    assert!(flag(&cpu, Flag::Carry));
    cpu.registers.a = 0x19;
    cpu.registers.flags.set(Flag::Carry, false);
    cpu.add_bcd(0x01);
    assert_eq!(cpu.registers.a, 0x20);
    assert!(!flag(&cpu, Flag::Carry));
    cpu.sbc_bcd(0x01);
    assert_eq!(cpu.registers.a, 0x18);
    assert!(flag(&cpu, Flag::Carry));
}

#[test]
fn increments_and_decrements() {
    // INX ; INY ; DEX ; DEY ; INC $10 ; DEC $11
    let mut cpu = cpu_with(&[0xE8, 0xC8, 0xCA, 0x88, 0xE6, 0x10, 0xC6, 0x11]);
    cpu.registers.x = 0xFF;
    cpu.registers.y = 0x7F;
    run(&mut cpu, 1);
    assert_eq!(cpu.registers.x, 0x00);
    assert!(flag(&cpu, Flag::Zero));
    run(&mut cpu, 1);
    assert_eq!(cpu.registers.y, 0x80);
    assert!(flag(&cpu, Flag::Negative));
    run(&mut cpu, 1);
    assert_eq!(cpu.registers.x, 0xFF);
    assert!(flag(&cpu, Flag::Negative));
    run(&mut cpu, 1);
    assert_eq!(cpu.registers.y, 0x7F);
    assert!(!flag(&cpu, Flag::Negative));
    cpu.memory.write_byte(0x0010, 0xFF);
    cpu.memory.write_byte(0x0011, 0x00);
    let carry = flag(&cpu, Flag::Carry);
    let overflow = flag(&cpu, Flag::Overflow);
    run(&mut cpu, 1);
    assert_eq!(cpu.memory.read_byte(0x0010), 0x00);
    assert!(flag(&cpu, Flag::Zero));
    run(&mut cpu, 1);
    assert_eq!(cpu.memory.read_byte(0x0011), 0xFF);
    assert!(flag(&cpu, Flag::Negative));
    assert_eq!(flag(&cpu, Flag::Carry), carry);
    assert_eq!(flag(&cpu, Flag::Overflow), overflow);
    assert_eq!(cpu.cycles, 2 + 2 + 2 + 2 + 5 + 5);
}

#[test]
fn shifts_on_the_accumulator() {
    // ASL A ; LSR A ; ROL A ; ROR A
    let mut cpu = cpu_with(&[0x0A, 0x4A, 0x2A, 0x6A]);
    cpu.registers.a = 0x81;
    run(&mut cpu, 1);
    assert_eq!(cpu.registers.a, 0x02);
    assert!(flag(&cpu, Flag::Carry));
    run(&mut cpu, 1);
    assert_eq!(cpu.registers.a, 0x01);
    assert!(!flag(&cpu, Flag::Carry));
    assert!(!flag(&cpu, Flag::Negative));
    cpu.registers.a = 0x80;
    cpu.registers.flags.set(Flag::Carry, true);
    run(&mut cpu, 1);
    assert_eq!(cpu.registers.a, 0x01);
    assert!(flag(&cpu, Flag::Carry));
    run(&mut cpu, 1);
    assert_eq!(cpu.registers.a, 0x80);
    assert!(flag(&cpu, Flag::Carry));
    assert!(flag(&cpu, Flag::Negative));
    assert!(!flag(&cpu, Flag::Zero));
}

#[test]
fn shifts_on_memory() {
    // ASL $10 ; ROR $1234 ; LSR $10,X ; ROL $2000,X
    let mut cpu = cpu_with(&[0x06, 0x10, 0x6E, 0x34, 0x12, 0x56, 0x10, 0x3E, 0x00, 0x20]);
    cpu.registers.a = 0x55;
    cpu.registers.x = 0x01;
    cpu.memory.write_byte(0x0010, 0x40);
    cpu.memory.write_byte(0x1234, 0x01);
    cpu.memory.write_byte(0x0011, 0x01);
    cpu.memory.write_byte(0x2001, 0xC0);
    run(&mut cpu, 1);
    assert_eq!(cpu.memory.read_byte(0x0010), 0x80);
    assert!(!flag(&cpu, Flag::Carry));
    assert!(flag(&cpu, Flag::Negative));
    run(&mut cpu, 1);
    assert_eq!(cpu.memory.read_byte(0x1234), 0x00);
    assert!(flag(&cpu, Flag::Carry));
    assert!(flag(&cpu, Flag::Zero));
    run(&mut cpu, 1);
    assert_eq!(cpu.memory.read_byte(0x0011), 0x00);
    assert!(flag(&cpu, Flag::Carry));
    run(&mut cpu, 1);
    assert_eq!(cpu.memory.read_byte(0x2001), 0x81);
    assert!(flag(&cpu, Flag::Carry));
    assert!(flag(&cpu, Flag::Negative));
    assert_eq!(cpu.registers.a, 0x55);
    assert_eq!(cpu.cycles, 5 + 6 + 6 + 7);
}

#[test]
fn comparisons() {
    // CMP #$10 ; CPX #$10 ; CPY #$10
    let mut cpu = cpu_with(&[0xC9, 0x10, 0xE0, 0x10, 0xC0, 0x10]);
    cpu.registers.a = 0x10;
    cpu.registers.x = 0x20;
    cpu.registers.y = 0x0F;
    cpu.registers.flags.set(Flag::Overflow, true);
    cpu.registers.flags.set(Flag::Decimal, true);
    run(&mut cpu, 1);
    assert!(flag(&cpu, Flag::Carry));
    assert!(flag(&cpu, Flag::Zero));
    assert!(!flag(&cpu, Flag::Negative));
    run(&mut cpu, 1);
    assert!(flag(&cpu, Flag::Carry));
    assert!(!flag(&cpu, Flag::Zero));
    assert!(!flag(&cpu, Flag::Negative));
    run(&mut cpu, 1);
    assert!(!flag(&cpu, Flag::Carry));
    assert!(!flag(&cpu, Flag::Zero));
    assert!(flag(&cpu, Flag::Negative));
    assert_eq!(cpu.registers.a, 0x10);
    assert_eq!(cpu.registers.x, 0x20);
    assert_eq!(cpu.registers.y, 0x0F);
    assert!(flag(&cpu, Flag::Overflow));
    assert!(flag(&cpu, Flag::Decimal));
}

#[test]
fn flag_instructions() {
    // SEC SED SEI CLC CLD CLI CLV
    let mut cpu = cpu_with(&[0x38, 0xF8, 0x78, 0x18, 0xD8, 0x58, 0xB8]);
    cpu.registers.flags.0 = 0x40;
    run(&mut cpu, 3);
    assert_eq!(cpu.registers.flags.0, 0x40 | 0x01 | 0x08 | 0x04);
    run(&mut cpu, 4);
    assert_eq!(cpu.registers.flags.0, 0x00);
    assert_eq!(cpu.cycles, 14);
}

#[test]
fn every_branch_follows_its_flag() {
    let cases = [
        (0x10u8, Flag::Negative, false),
        (0x30, Flag::Negative, true),
        (0x50, Flag::Overflow, false),
        (0x70, Flag::Overflow, true),
        (0x90, Flag::Carry, false),
        (0xB0, Flag::Carry, true),
        (0xD0, Flag::Zero, false),
        (0xF0, Flag::Zero, true),
    ];
    for (opcode, tested, polarity) in cases {
        for value in [false, true] {
            let mut cpu = cpu_with(&[opcode, 0x10]);
            cpu.registers.flags.set(tested, value);
            let flags = cpu.registers.flags;
            run(&mut cpu, 1);
            let expected = if value == polarity { 0x0612 } else { 0x0602 };
            assert_eq!(cpu.registers.pc, expected);
            assert_eq!(cpu.registers.flags, flags);
            assert_eq!(cpu.cycles, 2);
        }
    }
}

#[test]
fn jumps() {
    let mut cpu = cpu_with(&[0x4C, 0x34, 0x12]);
    run(&mut cpu, 1);
    assert_eq!(cpu.registers.pc, 0x1234);
    assert_eq!(cpu.cycles, 3);

    let mut cpu = cpu_with(&[0x6C, 0xFF, 0x30]);
    cpu.memory.write_byte(0x30FF, 0x80);
    cpu.memory.write_byte(0x3000, 0x40);
    cpu.memory.write_byte(0x3100, 0x50);
    run(&mut cpu, 1);
    assert_eq!(cpu.registers.pc, 0x4080);
    assert_eq!(cpu.cycles, 5);
}

#[test]
fn stack_instructions() {
    // PHA ; PHP ; PLA ; PLP
    let mut cpu = cpu_with(&[0x48, 0x08, 0x68, 0x28]);
    cpu.registers.a = 0x80;
    cpu.registers.flags.0 = 0b0000_0001;
    run(&mut cpu, 1);
    assert_eq!(cpu.registers.sp, 0xFE);
    assert_eq!(cpu.memory.read_byte(0x01FF), 0x80);
    run(&mut cpu, 1);
    assert_eq!(cpu.registers.sp, 0xFD);
    assert_eq!(cpu.memory.read_byte(0x01FE), 0b0011_0001);
    assert_eq!(cpu.registers.flags.0, 0b0000_0001);
    run(&mut cpu, 1);
    assert_eq!(cpu.registers.a, 0b0011_0001);
    assert_eq!(cpu.registers.sp, 0xFE);
    assert!(!flag(&cpu, Flag::Zero));
    assert!(!flag(&cpu, Flag::Negative));
    run(&mut cpu, 1);
    assert_eq!(cpu.registers.sp, 0xFF);
    // The byte 0x80 is popped into P; Break keeps its value in the register.
    assert_eq!(cpu.registers.flags.0, 0x80);
    assert_eq!(cpu.cycles, 3 + 3 + 4 + 4);
}

#[test]
fn plp_does_not_overwrite_break() {
    let mut cpu = cpu_with(&[0x28, 0x28]);
    cpu.registers.sp = 0xFD;
    cpu.memory.write_byte(0x01FE, 0xFF);
    cpu.memory.write_byte(0x01FF, 0x00);
    cpu.registers.flags.0 = 0x00;
    run(&mut cpu, 1);
    assert_eq!(cpu.registers.flags.0, 0xEF);
    cpu.registers.flags.0 = 0x10;
    run(&mut cpu, 1);
    assert_eq!(cpu.registers.flags.0, 0x10);
}

#[test]
fn brk_enters_the_interrupt_routine() {
    let mut cpu = cpu_with(&[0x00, 0xFF, 0xEA]);
    cpu.memory.write_short(0xFFFE, 0x9000);
    cpu.registers.flags.0 = 0b0000_0001;
    run(&mut cpu, 1);
    assert_eq!(cpu.registers.pc, 0x9000);
    assert_eq!(cpu.registers.sp, 0xFC);
    // The pushed address skips the byte after the opcode.
    assert_eq!(cpu.memory.read_byte(0x01FF), 0x06);
    assert_eq!(cpu.memory.read_byte(0x01FE), 0x02);
    assert_eq!(cpu.memory.read_byte(0x01FD), 0b0011_0001);
    assert!(flag(&cpu, Flag::InterruptDisable));
    assert!(flag(&cpu, Flag::Break));
    assert_eq!(cpu.cycles, 7 + 7);
}

#[test]
fn brk_then_rti_comes_back() {
    let mut cpu = cpu_with(&[0x00, 0xFF, 0xEA]);
    cpu.memory.write_short(0xFFFE, 0x9000);
    cpu.memory.write_byte(0x9000, 0x40);
    cpu.registers.flags.0 = 0b1100_0011;
    run(&mut cpu, 2);
    assert_eq!(cpu.registers.pc, 0x0602);
    assert_eq!(cpu.registers.sp, 0xFF);
    // The popped status has Break clear and the reserved bit as pushed.
    assert_eq!(cpu.registers.flags.0, 0b1110_0011);
    assert_eq!(cpu.cycles, 7 + 7 + 6);
}

#[test]
fn rti_does_not_add_one() {
    let mut cpu = cpu_with(&[0x40]);
    cpu.registers.sp = 0xFC;
    cpu.memory.write_byte(0x01FD, 0xFF);
    cpu.memory.write_byte(0x01FE, 0x34);
    cpu.memory.write_byte(0x01FF, 0x12);
    run(&mut cpu, 1);
    assert_eq!(cpu.registers.pc, 0x1234);
    assert_eq!(cpu.registers.flags.0, 0xEF);
    assert_eq!(cpu.registers.sp, 0xFF);
}

#[test]
fn every_stack_fault_is_reported_and_changes_nothing() {
    let overflow: [(u8, u8); 6] =
        [(0x48, 0), (0x08, 0), (0x20, 0), (0x20, 1), (0x00, 0), (0x00, 2)];
    for (opcode, sp) in overflow {
        let mut cpu = cpu_with(&[opcode, 0x00, 0x10]);
        cpu.registers.sp = sp;
        cpu.registers.flags.0 = 0x00;
        assert_eq!(cpu.step(), Err(CpuError::StackOverflow));
        assert_eq!(cpu.registers.sp, sp);
        assert_eq!(cpu.registers.flags.0, 0x00);
        assert_eq!(cpu.cycles, 0);
        assert_eq!(cpu.memory.read_byte(0x0100), 0);
        assert_eq!(cpu.memory.read_byte(0x0101), 0);
        assert_eq!(cpu.memory.read_byte(0x0102), 0);
    }
    let underflow: [(u8, u8); 7] = [
        (0x68, 0xFF),
        (0x28, 0xFF),
        (0x60, 0xFF),
        (0x60, 0xFE),
        (0x40, 0xFF),
        (0x40, 0xFE),
        (0x40, 0xFD),
    ];
    for (opcode, sp) in underflow {
        let mut cpu = cpu_with(&[opcode]);
        cpu.registers.sp = sp;
        let registers = cpu.registers;
        assert_eq!(cpu.step(), Err(CpuError::StackUnderflow));
        assert_eq!(cpu.registers.sp, sp);
        assert_eq!(cpu.registers.a, registers.a);
        assert_eq!(cpu.registers.flags, registers.flags);
        assert_eq!(cpu.cycles, 0);
    }
}

#[test]
fn the_last_free_stack_bytes_can_be_used() {
    let mut cpu = cpu_with(&[0x48]);
    cpu.registers.sp = 1;
    cpu.registers.a = 0x33;
    run(&mut cpu, 1);
    assert_eq!(cpu.registers.sp, 0);
    assert_eq!(cpu.memory.read_byte(0x0101), 0x33);

    let mut cpu = cpu_with(&[0x20, 0x00, 0x10]);
    cpu.registers.sp = 2;
    run(&mut cpu, 1);
    assert_eq!(cpu.registers.sp, 0);
    assert_eq!(cpu.memory.read_byte(0x0102), 0x06);
    assert_eq!(cpu.memory.read_byte(0x0101), 0x02);

    let mut cpu = cpu_with(&[0x68]);
    cpu.registers.sp = 0xFE;
    cpu.memory.write_byte(0x01FF, 0x44);
    run(&mut cpu, 1);
    assert_eq!(cpu.registers.a, 0x44);
    assert_eq!(cpu.registers.sp, 0xFF);
}

#[test]
fn an_interrupt_without_stack_room_is_reported_after_the_instruction() {
    let mut cpu = cpu_with(&[0xA9, 0x05]);
    cpu.registers.sp = 2;
    cpu.pulse_nmi();
    assert_eq!(cpu.step(), Err(CpuError::StackOverflow));
    assert_eq!(cpu.registers.a, 0x05);
    assert_eq!(cpu.registers.pc, 0x0602);
    assert_eq!(cpu.registers.sp, 2);
    assert_eq!(cpu.cycles, 2);
    assert!(cpu.nmi_edge);
}

#[test]
fn the_program_counter_wraps() {
    let mut cpu: Box<Cpu> = Box::new(Cpu::new());
    cpu.registers.pc = 0xFFFF;
    cpu.memory.write_byte(0xFFFF, 0xA9);
    cpu.memory.write_byte(0x0000, 0x42);
    run(&mut cpu, 1);
    assert_eq!(cpu.registers.a, 0x42);
    assert_eq!(cpu.registers.pc, 0x0001);
}

#[test]
fn the_cycle_counter_wraps() {
    let mut cpu = cpu_with(&[0xEA]);
    cpu.cycles = u32::MAX;
    run(&mut cpu, 1);
    assert_eq!(cpu.cycles, 1);
}

#[test]
fn the_current_instruction_is_kept_after_a_step() {
    let mut cpu = cpu_with(&[0xAD, 0x00, 0x20]);
    assert_eq!(cpu.current_instruction, None);
    run(&mut cpu, 1);
    assert_eq!(cpu.current_instruction, Some(rs_6502::instruction_table::lookup(0xAD)));
}

#[test]
fn handlers_can_be_called_directly() {
    let mut cpu: Box<Cpu> = Box::new(Cpu::new());
    cpu.registers.a = 0x7F;
    assert_eq!(cpu.pha(), Ok(()));
    cpu.registers.a = 0;
    assert_eq!(cpu.pla(), Ok(()));
    assert_eq!(cpu.registers.a, 0x7F);
    cpu.registers.x = 0x10;
    cpu.inx();
    assert_eq!(cpu.registers.x, 0x11);
    cpu.sec();
    assert!(flag(&cpu, Flag::Carry));
    cpu.nop();
    assert_eq!(cpu.kil(), Err(CpuError::KilEncountered));
    assert!(cpu.is_halted());
    assert_eq!(cpu.push_byte(1), Ok(()));
    assert_eq!(cpu.push_short(0x1234), Ok(()));
    assert_eq!(cpu.pop_short(), Ok(0x1234));
    assert_eq!(cpu.pop_byte(), Ok(1));
    assert_eq!(cpu.pop_byte(), Err(CpuError::StackUnderflow));
}
