use rs_6502::cpu::Cpu;
use rs_6502::default_memory::DefaultMemory;
use rs_6502::error::CpuError;
use rs_6502::memory::{Memory, IRQ_VECTOR, NMI_VECTOR, RESET_VECTOR, VECTORS_START};

fn memory() -> Box<DefaultMemory> {
    Box::new(DefaultMemory::new())
}

#[test]
fn fresh_memory_is_zero() {
    let memory = memory();
    for address in [0x0000u16, 0x0001, 0x00FF, 0x0100, 0x01FF, 0x8000, 0xFFFA, 0xFFFF] {
        assert_eq!(memory.read_byte(address), 0);
    }
    assert_eq!(memory.read_short(0xFFFC), 0);
}

#[test]
fn vector_addresses() {
    assert_eq!(NMI_VECTOR, 0xFFFA);
    assert_eq!(RESET_VECTOR, 0xFFFC);
    assert_eq!(IRQ_VECTOR, 0xFFFE);
    assert_eq!(VECTORS_START, 0xFFFA);
}

#[test]
fn write_byte_changes_one_address() {
    let mut memory = memory();
    memory.write_byte(0x1234, 0xAB);
    assert_eq!(memory.read_byte(0x1234), 0xAB);
    assert_eq!(memory.read_byte(0x1233), 0);
    assert_eq!(memory.read_byte(0x1235), 0);
    memory.write_byte(0xFFFF, 0x01);
    assert_eq!(memory.read_byte(0xFFFF), 0x01);
    memory.write_byte(0x0000, 0x02);
    assert_eq!(memory.read_byte(0x0000), 0x02);
}

#[test]
fn shorts_are_little_endian() {
    let mut memory = memory();
    memory.write_byte(0x600, 0xCD);
    memory.write_byte(0x601, 0xAB);
    assert_eq!(memory.read_short(0x600), 0xABCD);

    memory.write_short(0x700, 0x1234);
    assert_eq!(memory.read_byte(0x700), 0x34);
    assert_eq!(memory.read_byte(0x701), 0x12);
    assert_eq!(memory.read_short(0x700), 0x1234);
}

#[test]
fn a_short_at_the_last_address_wraps_to_zero() {
    let mut memory = memory();
    memory.write_byte(0xFFFF, 0x34);
    memory.write_byte(0x0000, 0x12);
    assert_eq!(memory.read_short(0xFFFF), 0x1234);

    memory.write_short(0xFFFF, 0xBEEF);
    assert_eq!(memory.read_byte(0xFFFF), 0xEF);
    assert_eq!(memory.read_byte(0x0000), 0xBE);
}

#[test]
fn load_copies_the_image_and_nothing_else() {
    let mut memory = memory();
    memory.write_byte(0x05FF, 0x11);
    memory.write_byte(0x0603, 0x22);
    assert_eq!(memory.load(&[1, 2, 3], 0x0600), Ok(()));
    assert_eq!(memory.read_byte(0x05FF), 0x11);
    assert_eq!(memory.read_byte(0x0600), 1);
    assert_eq!(memory.read_byte(0x0601), 2);
    assert_eq!(memory.read_byte(0x0602), 3);
    assert_eq!(memory.read_byte(0x0603), 0x22);
}

#[test]
fn load_up_to_the_vectors() {
    let mut memory = memory();
    assert_eq!(memory.load(&[7, 8], 0xFFF8), Ok(()));
    assert_eq!(memory.read_byte(0xFFF8), 7);
    assert_eq!(memory.read_byte(0xFFF9), 8);
    assert_eq!(memory.read_byte(0xFFFA), 0);
    assert_eq!(memory.load(&[], 0xFFFA), Ok(()));
}

#[test]
fn load_into_the_vectors_is_refused_without_a_write() {
    let mut memory = memory();
    assert_eq!(memory.load(&[7, 8, 9], 0xFFF8), Err(CpuError::LoadOversize));
    assert_eq!(memory.read_byte(0xFFF8), 0);
    assert_eq!(memory.read_byte(0xFFF9), 0);
    assert_eq!(memory.read_byte(0xFFFA), 0);
    assert_eq!(memory.load(&[1], 0xFFFA), Err(CpuError::LoadOversize));
    assert_eq!(memory.load(&[1], 0xFFFF), Err(CpuError::LoadOversize));
    assert_eq!(memory.load(&[], 0xFFFB), Err(CpuError::LoadOversize));
    let big = vec![0xEAu8; 0x10000];
    assert_eq!(memory.load(&big, 0), Err(CpuError::LoadOversize));
    assert_eq!(memory.read_byte(0), 0);
}

#[test]
fn a_large_image_that_fits_is_loaded() {
    let mut memory = memory();
    let image: Vec<u8> = (0..0xFFFAu32).map(|at| (at % 251) as u8).collect();
    assert_eq!(memory.load(&image, 0), Ok(()));
    assert_eq!(memory.read_byte(0), 0);
    assert_eq!(memory.read_byte(250), 250);
    assert_eq!(memory.read_byte(251), 0);
    assert_eq!(memory.read_byte(0xFFF9), (0xFFF9u32 % 251) as u8);
    assert_eq!(memory.read_byte(0xFFFA), 0);
}

#[test]
fn verify_executable_gives_the_range() {
    assert_eq!(DefaultMemory::verify_executable(5, 0x0600), Ok((0x0600, 0x0605)));
    assert_eq!(DefaultMemory::verify_executable(0, 0), Ok((0, 0)));
    assert_eq!(DefaultMemory::verify_executable(0xFFFA, 0), Ok((0, 0xFFFA)));
    assert_eq!(DefaultMemory::verify_executable(0xFFFB, 0), Err(CpuError::LoadOversize));
    assert_eq!(DefaultMemory::verify_executable(1, 0xFFFA), Err(CpuError::LoadOversize));
    assert_eq!(DefaultMemory::verify_executable(usize::MAX, 1), Err(CpuError::LoadOversize));
}

#[test]
fn load_executable_sets_the_reset_vector() {
    let mut cpu: Box<Cpu> = Box::new(Cpu::new());
    assert_eq!(cpu.load_executable(&[0xEA, 0xEA], 0x0600), Ok(()));
    assert_eq!(cpu.memory.read_byte(0xFFFC), 0x00);
    assert_eq!(cpu.memory.read_byte(0xFFFD), 0x06);
    assert_eq!(cpu.memory.read_byte(0x0600), 0xEA);
    assert_eq!(cpu.memory.read_byte(0x0601), 0xEA);
    assert_eq!(cpu.memory.read_byte(0x0602), 0x00);
    // Loading alone does not move the program counter.
    assert_eq!(cpu.registers.pc, 0);
    cpu.init_registers();
    assert_eq!(cpu.registers.pc, 0x0600);
    assert_eq!(cpu.registers.sp, 0xFF);
}

#[test]
fn load_executable_refuses_an_oversize_image_without_a_write() {
    let mut cpu: Box<Cpu> = Box::new(Cpu::new());
    assert_eq!(cpu.load_executable(&[1, 2, 3], 0xFFF9), Err(CpuError::LoadOversize));
    assert_eq!(cpu.memory.read_byte(0xFFF9), 0);
    assert_eq!(cpu.memory.read_short(0xFFFC), 0);
}

#[test]
fn error_messages() {
    assert_eq!(CpuError::StackOverflow.message(), "Stack overflow");
    assert_eq!(CpuError::StackUnderflow.message(), "Stack underflow");
    assert_eq!(CpuError::KilEncountered.message(), "Processor halted by KIL");
    assert_eq!(CpuError::LoadOversize.message(), "Executable does not fit below the vectors");
}
