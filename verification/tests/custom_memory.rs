use rs_6502::cpu::Cpu;
use rs_6502::error::CpuError;
use rs_6502::memory::Memory;
use rs_6502::registers::Flag;

/// An address space on the heap.
struct HeapMemory {
    bytes: Vec<u8>,
}

impl Memory for HeapMemory {
    fn byte_at(&self, address: u16) -> u8 {
        self.bytes[address as usize]
    }

    fn new() -> Self {
        HeapMemory { bytes: vec![0; 0x10000] }
    }

    fn read_byte(&self, address: u16) -> u8 {
        self.bytes[address as usize]
    }

    fn read_short(&self, address: u16) -> u16 {
        let low = self.bytes[address as usize] as u16;
        let high = self.bytes[address.wrapping_add(1) as usize] as u16;
        (high << 8) | low
    }

    fn write_byte(&mut self, address: u16, value: u8) {
        self.bytes[address as usize] = value;
    }

    fn write_short(&mut self, address: u16, value: u16) {
        self.bytes[address as usize] = (value & 0xFF) as u8;
        self.bytes[address.wrapping_add(1) as usize] = (value >> 8) as u8;
    }

    fn load(&mut self, executable: &[u8], address: u16) -> Result<(), CpuError> {
        let start = address as usize;
        if start + executable.len() > 0xFFFA {
            return Err(CpuError::LoadOversize);
        }
        self.bytes[start..start + executable.len()].copy_from_slice(executable);
        Ok(())
    }
}

#[test]
fn the_processor_runs_on_another_address_space() {
    let mut cpu: Cpu<HeapMemory> = Cpu::new();
    assert_eq!(cpu.load_executable(&[0xA2, 0x05, 0xCA, 0xD0, 0xFD, 0x8E, 0x00, 0x02], 0x0600), Ok(()));
    cpu.init_registers();
    // LDX #5 ; loop: DEX ; BNE loop ; STX $0200
    let mut steps = 0;
    while cpu.registers.pc != 0x0608 {
        assert_eq!(cpu.step(), Ok(()));
        steps += 1;
        assert!(steps < 100);
    }
    assert_eq!(steps, 1 + 2 * 5 + 1);
    assert_eq!(cpu.registers.x, 0);
    assert!(cpu.registers.flags.get(Flag::Zero));
    assert_eq!(cpu.memory.read_byte(0x0200), 0);
    assert_eq!(cpu.cycles, 2 + 5 * (2 + 2) + 4);
}
