use rs_6502::cpu::{Cpu, Interrupt};
use rs_6502::instruction_table::lookup;
use rs_6502::memory::Memory;
use rs_6502::registers::{Flag, Flags};

fn cpu_with(program: &[u8]) -> Box<Cpu> {
    let mut cpu: Box<Cpu> = Box::new(Cpu::new());
    cpu.load_executable(program, 0x0600).expect("the program fits");
    cpu.init_registers();
    cpu
}

#[test]
fn pha_pla_round_trip() {
    for a in [0x00u8, 0x01, 0x7F, 0x80, 0xFF] {
        for sp in [0x01u8, 0x80, 0xFF] {
            let mut cpu = cpu_with(&[0x48, 0x68]);
            cpu.registers.a = a;
            cpu.registers.sp = sp;
            assert_eq!(cpu.step(), Ok(()));
            assert_eq!(cpu.step(), Ok(()));
            assert_eq!(cpu.registers.a, a);
            assert_eq!(cpu.registers.sp, sp);
            assert_eq!(cpu.registers.flags.get(Flag::Zero), a == 0);
            assert_eq!(cpu.registers.flags.get(Flag::Negative), a >= 0x80);
        }
    }
}

#[test]
fn php_plp_round_trip() {
    for byte in 0u8..=255 {
        let mut cpu = cpu_with(&[0x08, 0x28]);
        cpu.registers.flags = Flags(byte);
        assert_eq!(cpu.step(), Ok(()));
        assert_eq!(cpu.memory.read_byte(0x01FF), byte | 0x30);
        assert_eq!(cpu.step(), Ok(()));
        assert_eq!(cpu.registers.flags.0, byte | 0x20);
        assert_eq!(cpu.registers.sp, 0xFF);
    }
}

#[test]
fn jsr_rts_round_trip() {
    for target in [0x0700u16, 0x2000, 0xFF00] {
        let mut cpu = cpu_with(&[0x20, (target % 256) as u8, (target / 256) as u8]);
        cpu.memory.write_byte(target, 0x60);
        cpu.registers.sp = 0x40;
        assert_eq!(cpu.step(), Ok(()));
        assert_eq!(cpu.registers.pc, target);
        assert_eq!(cpu.step(), Ok(()));
        assert_eq!(cpu.registers.pc, 0x0603);
        assert_eq!(cpu.registers.sp, 0x40);
    }
}

#[test]
fn every_other_instruction_moves_the_program_counter_past_itself() {
    for opcode in 0u8..=255 {
        let instruction = lookup(opcode);
        if instruction.is_jump() || opcode == 0x02 {
            continue;
        }
        let mut cpu = cpu_with(&[opcode, 0x10, 0x20]);
        cpu.registers.sp = 0x80;
        let cycles = cpu.cycles;
        assert_eq!(cpu.step(), Ok(()));
        assert_eq!(cpu.registers.pc, 0x0601 + instruction.mode.operand_size());
        assert_eq!(cpu.cycles, cycles + instruction.cycles as u32);
        assert!(cpu.cycles >= cycles);
    }
}

#[test]
fn pushed_status_always_has_the_reserved_bit() {
    for byte in [0x00u8, 0x10, 0x20, 0xCF, 0xFF] {
        let mut cpu = cpu_with(&[0x08]);
        cpu.registers.flags = Flags(byte);
        assert_eq!(cpu.step(), Ok(()));
        assert_eq!(cpu.memory.read_byte(0x01FF) & 0x30, 0x30);

        for (source, with_break) in [
            (Interrupt::Maskable, false),
            (Interrupt::NonMaskable, false),
            (Interrupt::Break, true),
        ] {
            let mut cpu = cpu_with(&[0xEA]);
            cpu.registers.flags = Flags(byte);
            assert_eq!(cpu.handle_interrupt(source), Ok(()));
            let pushed = cpu.memory.read_byte(0x01FD);
            assert_eq!(pushed & 0x20, 0x20);
            assert_eq!(pushed & 0x10 != 0, with_break);
            assert_eq!(pushed & 0xCF, byte & 0xCF);
            assert_eq!(cpu.cycles, 7);
        }
    }
}

#[test]
fn interrupt_vectors() {
    for (source, vector) in [
        (Interrupt::Maskable, 0xFFFEu16),
        (Interrupt::NonMaskable, 0xFFFA),
        (Interrupt::Break, 0xFFFE),
    ] {
        let mut cpu = cpu_with(&[0xEA]);
        cpu.memory.write_short(0xFFFA, 0x1111);
        cpu.memory.write_short(0xFFFE, 0x2222);
        cpu.registers.flags.set(Flag::InterruptDisable, false);
        assert_eq!(cpu.handle_interrupt(source), Ok(()));
        assert_eq!(cpu.registers.pc, cpu.memory.read_short(vector));
        assert!(cpu.registers.flags.get(Flag::InterruptDisable));
        assert_eq!(cpu.registers.sp, 0xFC);
        assert_eq!(cpu.memory.read_byte(0x01FF), 0x06);
        assert_eq!(cpu.memory.read_byte(0x01FE), 0x00);
    }
}

#[test]
fn the_stack_pointer_stays_in_page_one() {
    let mut cpu = cpu_with(&[0x48, 0x48, 0x68, 0x68, 0x9A, 0x48]);
    cpu.registers.x = 0x00;
    for _ in 0..5 {
        assert_eq!(cpu.step(), Ok(()));
        let address = 0x0100 | cpu.registers.sp as u16;
        assert!((0x0100..=0x01FF).contains(&address));
    }
    assert_eq!(cpu.registers.sp, 0x00);
    assert!(cpu.step().is_err());
    assert_eq!(cpu.registers.sp, 0x00);
}

#[test]
fn reset_brings_the_registers_back() {
    let mut cpu = cpu_with(&[0xA9, 0x42, 0x48]);
    assert_eq!(cpu.step(), Ok(()));
    assert_eq!(cpu.step(), Ok(()));
    cpu.registers.x = 7;
    cpu.registers.y = 8;
    cpu.registers.flags.0 = 0xFF;
    cpu.reset();
    assert_eq!(cpu.registers.a, 0);
    assert_eq!(cpu.registers.x, 0);
    assert_eq!(cpu.registers.y, 0);
    assert_eq!(cpu.registers.sp, 0xFF);
    assert_eq!(cpu.registers.pc, 0x0600);
    assert_eq!(cpu.registers.flags.0, 0b0010_0100);
    assert_eq!(cpu.cycles, 8);
    // Memory is kept.
    assert_eq!(cpu.memory.read_byte(0x01FF), 0x42);
}

#[test]
fn a_new_processor() {
    let cpu: Box<Cpu> = Box::new(Cpu::new());
    assert_eq!(cpu.registers.pc, 0);
    assert_eq!(cpu.registers.sp, 0xFF);
    assert_eq!(cpu.registers.flags.0, 0b0010_0100);
    assert_eq!(cpu.cycles, 0);
    assert_eq!(cpu.current_instruction, None);
    assert!(!cpu.is_halted());
    assert!(!cpu.nmi_edge);
    assert_eq!(cpu.irq_line, rs_6502::cpu::Voltage::High);
    assert_eq!(cpu.memory.read_byte(0x0000), 0);
    assert_eq!(cpu.memory.read_byte(0xFFFF), 0);
}
