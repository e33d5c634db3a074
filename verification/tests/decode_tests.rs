use vcpu::bus::Device;
use vcpu::cpu::Cpu;
use vcpu::error::CpuError;
use vcpu::instruction::{AddressingMode, Instruction, OpCode};
use vcpu::ram::Ram;

/// A CPU whose program counter sits at `origin` with `bytes` laid out there.
fn with_bytes(origin: u16, bytes: &[u8]) -> Cpu {
    let mut ram = Ram::new(0x0000, 0xFFFF);
    ram.write_all(origin, bytes);
    ram.write_all(0xFFFC, &[(origin % 256) as u8, (origin / 256) as u8]);
    let mut cpu = Cpu::new();
    cpu.connect(Device::Ram(ram));
    cpu.reset();
    while cpu.cycles() > 0 {
        cpu.clock().unwrap();
    }
    cpu
}

#[test]
fn decode_absolute_takes_little_endian_word() {
    let mut cpu = with_bytes(0x8000, &[0x34, 0x12]);
    let instr = cpu.decode(0x6D).unwrap();
    assert_eq!(
        instr,
        Instruction { opcode: OpCode::ADC, mode: AddressingMode::Absolute(0x1234), cycles: 4 }
    );
    assert_eq!(cpu.prog_counter(), 0x8002);
}

#[test]
fn decode_immediate_takes_one_byte() {
    let mut cpu = with_bytes(0x8000, &[0x7F]);
    let instr = cpu.decode(0xA9).unwrap();
    assert_eq!(
        instr,
        Instruction { opcode: OpCode::LDA, mode: AddressingMode::Immediate(0x7F), cycles: 2 }
    );
    assert_eq!(cpu.prog_counter(), 0x8001);
}

#[test]
fn decode_implied_takes_no_bytes() {
    let mut cpu = with_bytes(0x8000, &[0xEA]);
    let instr = cpu.decode(0x00).unwrap();
    assert_eq!(
        instr,
        Instruction { opcode: OpCode::BRK, mode: AddressingMode::Implied, cycles: 7 }
    );
    assert_eq!(cpu.prog_counter(), 0x8000);
}

#[test]
fn decode_zero_page_indexed_takes_one_byte() {
    let mut cpu = with_bytes(0x8000, &[0x42]);
    let instr = cpu.decode(0x75).unwrap();
    assert_eq!(
        instr,
        Instruction { opcode: OpCode::ADC, mode: AddressingMode::ZeroPageX(0x42), cycles: 4 }
    );
    assert_eq!(cpu.prog_counter(), 0x8001);
}

#[test]
fn decode_relative_takes_one_byte() {
    let mut cpu = with_bytes(0x8000, &[0xFE]);
    let instr = cpu.decode(0xD0).unwrap();
    assert_eq!(
        instr,
        Instruction { opcode: OpCode::BNE, mode: AddressingMode::Relative(0xFE), cycles: 2 }
    );
    assert_eq!(cpu.prog_counter(), 0x8001);
}

#[test]
fn decode_rejects_undocumented_opcode() {
    let mut cpu = with_bytes(0x8000, &[0x00]);
    assert_eq!(cpu.decode(0xFF), Err(CpuError::InvalidOpCode(0xFF)));
    assert_eq!(cpu.prog_counter(), 0x8000);
}

#[test]
fn documented_opcode_count_is_151() {
    let mut documented = 0;
    for op in 0..=255u8 {
        let mut cpu = with_bytes(0x8000, &[0x00, 0x00]);
        if cpu.decode(op).is_ok() {
            documented += 1;
        }
    }
    assert_eq!(documented, 151);
}

#[test]
fn store_and_rmw_cycle_counts() {
    // STA $xxxx,X always costs 5; ASL $xxxx,X always costs 7.
    let mut cpu = with_bytes(0x8000, &[0x00, 0x10]);
    assert_eq!(cpu.decode(0x9D).unwrap().cycles, 5);
    let mut cpu = with_bytes(0x8000, &[0x00, 0x10]);
    assert_eq!(cpu.decode(0x1E).unwrap().cycles, 7);
}
