use rs_6502::cpu::Cpu;
use rs_6502::registers::{Flag, Flags, Registers};
use rs_6502::text::{byte_line, decimal, digit, hex_byte, hex_word, pad_right};

fn flags_as_formatted(flags: &Flags) -> String {
    let mut text = String::new();
    for index in (0u8..=7).rev() {
        if let Ok(flag) = Flag::try_from(index) {
            text.push_str(&format!("{:<16} = {}\n", flag.name(), flags.get(flag)));
        }
    }
    text
}

fn registers_as_formatted(registers: &Registers) -> String {
    let mut text = String::new();
    text.push_str("Registers:\n");
    text.push_str(&format!("    X   = 0x{0:02X}   = {0} \n", registers.x));
    text.push_str(&format!("    Y   = 0x{0:02X}   = {0}\n", registers.y));
    text.push_str(&format!("    PC  = 0x{0:04X} = {0}\n", registers.pc));
    text.push_str(&format!("    SP  = 0x{0:02X} = {0}\n", registers.sp));
    text.push_str(&format!("    ACC = 0x{0:02X}   = {0}\n\n", registers.a));
    text.push_str("Flags:\n");
    text.push_str(&indent::indent_all_by(4, flags_as_formatted(&registers.flags)));
    text
}

#[test]
fn digits() {
    let expected = "0123456789ABCDEF";
    for value in 0u8..16 {
        assert_eq!(digit(value), &expected[value as usize..value as usize + 1]);
    }
}

#[test]
fn hexadecimal_numbers() {
    for value in 0u8..=255 {
        assert_eq!(hex_byte(value), format!("{:02X}", value));
    }
    for value in [0u16, 1, 0x00FF, 0x0100, 0x0600, 0xABCD, 0xFFFF] {
        assert_eq!(hex_word(value), format!("{:04X}", value));
    }
    assert_eq!(hex_byte(0x0A), "0A");
    assert_eq!(hex_word(0x0600), "0600");
}

#[test]
fn decimal_numbers() {
    for value in [0u32, 1, 9, 10, 11, 99, 100, 255, 256, 65535, 65536, 1_000_000, u32::MAX] {
        assert_eq!(decimal(value), format!("{}", value));
    }
    assert_eq!(decimal(0), "0");
    assert_eq!(decimal(4294967295), "4294967295");
}

#[test]
fn padding() {
    assert_eq!(pad_right("Zero", 16), "Zero            ");
    assert_eq!(pad_right("InterruptDisable", 16), "InterruptDisable");
    assert_eq!(pad_right("longer than the width", 4), "longer than the width");
    assert_eq!(pad_right("", 3), "   ");
    assert_eq!(pad_right("ab", 0), "ab");
}

#[test]
fn register_lines() {
    assert_eq!(byte_line("    X   = 0x", 0x2A, "   = ", " \n"), "    X   = 0x2A   = 42 \n");
    assert_eq!(byte_line("    SP  = 0x", 0xFF, " = ", "\n"), "    SP  = 0xFF = 255\n");
}

#[test]
fn flags_text() {
    let flags = Flags::new();
    let expected = "Negative         = false\n\
                    Overflow         = false\n\
                    Break            = false\n\
                    Decimal          = false\n\
                    InterruptDisable = true\n\
                    Zero             = false\n\
                    Carry            = false\n";
    assert_eq!(flags.to_text(), expected);
    assert_eq!(flags.flag_line(Flag::InterruptDisable), "InterruptDisable = true\n");
    for byte in [0x00u8, 0xFF, 0x24, 0x81, 0x5A] {
        assert_eq!(Flags(byte).to_text(), flags_as_formatted(&Flags(byte)));
    }
}

#[test]
fn registers_text() {
    let registers = Registers::new();
    let expected = "Registers:\n    X   = 0x00   = 0 \n    Y   = 0x00   = 0\n    PC  = 0x0000 = 0\n    SP  = 0xFF = 255\n    ACC = 0x00   = 0\n\nFlags:\n    Negative         = false\n    Overflow         = false\n    Break            = false\n    Decimal          = false\n    InterruptDisable = true\n    Zero             = false\n    Carry            = false\n";
    assert_eq!(registers.to_text(), expected);

    let registers =
        Registers { x: 0x12, y: 0xFE, pc: 0x0600, sp: 0x7F, a: 0x9C, flags: Flags(0xC3) };
    assert_eq!(registers.to_text(), registers_as_formatted(&registers));
}

#[test]
fn cpu_text() {
    let mut cpu: Box<Cpu> = Box::new(Cpu::new());
    cpu.cycles = 1234;
    cpu.registers.a = 0x42;
    let expected = format!(
        "Cpu:\n    cycles = 1234\n\n{}",
        indent::indent_all_by(4, registers_as_formatted(&cpu.registers))
    );
    assert_eq!(cpu.to_text(), expected);
    assert!(cpu.to_text().starts_with("Cpu:\n    cycles = 1234\n\n    Registers:\n        X   = 0x00   = 0 \n"));
    assert!(cpu.to_text().contains("\n        Negative         = false\n"));
}
