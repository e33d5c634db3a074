use vcpu::bus::Device;
use vcpu::cpu::Cpu;
use vcpu::ram::Ram;
use vcpu::status::StatusFlags;

/// Build a CPU with 64 KiB of RAM holding `program` at `$8000`, the reset
/// vector pointing there, and the reset sequence already consumed.
fn boot(program: &[u8]) -> Cpu {
    let mut ram = Ram::new(0x0000, 0xFFFF);
    ram.write_all(0x8000, program);
    ram.write_all(0xFFFC, &[0x00, 0x80]);
    let mut cpu = Cpu::new();
    cpu.connect(Device::Ram(ram));
    cpu.reset();
    while cpu.cycles() > 0 {
        cpu.clock().unwrap();
    }
    cpu
}

/// Run `n` whole instructions.
fn run(cpu: &mut Cpu, n: usize) {
    for _ in 0..n {
        loop {
            cpu.clock().unwrap();
            if cpu.cycles() == 0 {
                break;
            }
        }
    }
}

#[test]
fn logic_ops_update_accumulator_and_flags() {
    // LDA #$F0; AND #$0F -> 0, Zero; ORA #$80 -> $80, Negative; EOR #$80 -> 0
    let mut cpu = boot(&[0xA9, 0xF0, 0x29, 0x0F, 0x09, 0x80, 0x49, 0x80]);
    run(&mut cpu, 2);
    assert_eq!(cpu.a(), 0x00);
    assert!(cpu.is_flag(StatusFlags::Zero));
    run(&mut cpu, 1);
    assert_eq!(cpu.a(), 0x80);
    assert!(cpu.is_flag(StatusFlags::Negative));
    run(&mut cpu, 1);
    assert_eq!(cpu.a(), 0x00);
    assert!(cpu.is_flag(StatusFlags::Zero));
}

#[test]
fn asl_on_accumulator_sets_carry_from_bit_seven() {
    // LDA #$81; ASL A -> A = $02, Carry
    let mut cpu = boot(&[0xA9, 0x81, 0x0A]);
    run(&mut cpu, 2);
    assert_eq!(cpu.a(), 0x02);
    assert!(cpu.is_flag(StatusFlags::Carry));
    assert!(!cpu.is_flag(StatusFlags::Zero));
}

#[test]
fn lsr_shifts_into_carry() {
    // LDA #$01; LSR A -> A = 0, Carry, Zero
    let mut cpu = boot(&[0xA9, 0x01, 0x4A]);
    run(&mut cpu, 2);
    assert_eq!(cpu.a(), 0x00);
    assert!(cpu.is_flag(StatusFlags::Carry));
    assert!(cpu.is_flag(StatusFlags::Zero));
}

#[test]
fn rol_and_ror_move_the_carry() {
    // SEC; LDA #$40; ROL A -> $81 with carry clear; ROR A -> $40 carry set
    let mut cpu = boot(&[0x38, 0xA9, 0x40, 0x2A, 0x6A]);
    run(&mut cpu, 3);
    assert_eq!(cpu.a(), 0x81);
    assert!(!cpu.is_flag(StatusFlags::Carry));
    run(&mut cpu, 1);
    assert_eq!(cpu.a(), 0x40);
    assert!(cpu.is_flag(StatusFlags::Carry));
}

#[test]
fn inx_and_dex_wrap_around() {
    // LDX #$FF; INX -> 0 with Zero; DEX -> $FF with Negative
    let mut cpu = boot(&[0xA2, 0xFF, 0xE8, 0xCA]);
    run(&mut cpu, 2);
    assert_eq!(cpu.x(), 0x00);
    assert!(cpu.is_flag(StatusFlags::Zero));
    run(&mut cpu, 1);
    assert_eq!(cpu.x(), 0xFF);
    assert!(cpu.is_flag(StatusFlags::Negative));
}

#[test]
fn dec_memory_wraps_to_ff() {
    // $0010 = 0; DEC $10 -> $FF, Negative
    let mut cpu = boot(&[0xA9, 0x00, 0x85, 0x10, 0xC6, 0x10]);
    run(&mut cpu, 3);
    assert_eq!(cpu.read(0x0010), 0xFF);
    assert!(cpu.is_flag(StatusFlags::Negative));
}

#[test]
fn bit_sets_flags_from_memory_operand() {
    // $0010 = $C0; LDA #$0F; BIT $10 -> Zero (no overlap), Overflow, Negative
    let mut cpu = boot(&[0xA9, 0xC0, 0x85, 0x10, 0xA9, 0x0F, 0x24, 0x10]);
    run(&mut cpu, 4);
    assert!(cpu.is_flag(StatusFlags::Zero));
    assert!(cpu.is_flag(StatusFlags::Overflow));
    assert!(cpu.is_flag(StatusFlags::Negative));
    assert_eq!(cpu.a(), 0x0F);
}

#[test]
fn cpx_and_cpy_compare_their_registers() {
    // LDX #5; CPX #5 -> Carry+Zero; LDY #4; CPY #9 -> neither
    let mut cpu = boot(&[0xA2, 0x05, 0xE0, 0x05, 0xA0, 0x04, 0xC0, 0x09]);
    run(&mut cpu, 2);
    assert!(cpu.is_flag(StatusFlags::Carry));
    assert!(cpu.is_flag(StatusFlags::Zero));
    run(&mut cpu, 2);
    assert!(!cpu.is_flag(StatusFlags::Carry));
    assert!(!cpu.is_flag(StatusFlags::Zero));
}

#[test]
fn transfers_move_registers_and_set_flags() {
    // LDA #$80; TAX; TAY; LDX #0; TXA; TSX
    let mut cpu = boot(&[0xA9, 0x80, 0xAA, 0xA8, 0xA2, 0x00, 0x8A, 0xBA]);
    run(&mut cpu, 3);
    assert_eq!(cpu.x(), 0x80);
    assert_eq!(cpu.y(), 0x80);
    run(&mut cpu, 2);
    assert_eq!(cpu.a(), 0x00);
    assert!(cpu.is_flag(StatusFlags::Zero));
    run(&mut cpu, 1);
    assert_eq!(cpu.x(), cpu.stack_ptr());
}

#[test]
fn flag_ops_toggle_their_flags() {
    let mut cpu = boot(&[0x38, 0xF8, 0x78, 0x18, 0xD8, 0x58]);
    run(&mut cpu, 3);
    assert!(cpu.is_flag(StatusFlags::Carry));
    assert!(cpu.is_flag(StatusFlags::Decimal));
    assert!(cpu.is_flag(StatusFlags::Interrupt));
    run(&mut cpu, 3);
    assert!(!cpu.is_flag(StatusFlags::Carry));
    assert!(!cpu.is_flag(StatusFlags::Decimal));
    assert!(!cpu.is_flag(StatusFlags::Interrupt));
}

#[test]
fn sta_via_indirect_indexed_addressing() {
    // ($40) = $2000; LDY #5; LDA #$AB; STA ($40),Y -> $2005 = $AB
    let mut ram = Ram::new(0x0000, 0xFFFF);
    ram.write_all(0x0040, &[0x00, 0x20]);
    ram.write_all(0x8000, &[0xA0, 0x05, 0xA9, 0xAB, 0x91, 0x40]);
    ram.write_all(0xFFFC, &[0x00, 0x80]);
    let mut cpu = Cpu::new();
    cpu.connect(Device::Ram(ram));
    cpu.reset();
    while cpu.cycles() > 0 {
        cpu.clock().unwrap();
    }
    run(&mut cpu, 3);
    assert_eq!(cpu.read(0x2005), 0xAB);
}

#[test]
fn lda_via_pre_indexed_indirect_addressing() {
    // X = 4; ($20 + X) = ($24) = $3000; $3000 = $5C; LDA ($20,X)
    let mut ram = Ram::new(0x0000, 0xFFFF);
    ram.write_all(0x0024, &[0x00, 0x30]);
    ram.write_all(0x3000, &[0x5C]);
    ram.write_all(0x8000, &[0xA2, 0x04, 0xA1, 0x20]);
    ram.write_all(0xFFFC, &[0x00, 0x80]);
    let mut cpu = Cpu::new();
    cpu.connect(Device::Ram(ram));
    cpu.reset();
    while cpu.cycles() > 0 {
        cpu.clock().unwrap();
    }
    run(&mut cpu, 2);
    assert_eq!(cpu.a(), 0x5C);
}

#[test]
fn zero_page_x_wraps_inside_page_zero() {
    // X = $FF; STA $80,X stores at ($80 + $FF) mod 256 = $7F
    let mut cpu = boot(&[0xA2, 0xFF, 0xA9, 0x77, 0x95, 0x80]);
    run(&mut cpu, 3);
    assert_eq!(cpu.read(0x007F), 0x77);
}

#[test]
fn interrupt_pushes_state_with_break_clear() {
    let mut ram = Ram::new(0x0000, 0xFFFF);
    ram.write_all(0x8000, &[0xEA, 0xEA]);
    ram.write_all(0xFFFC, &[0x00, 0x80]);
    ram.write_all(0xFFFE, &[0x00, 0x90]);
    let mut cpu = Cpu::new();
    cpu.connect(Device::Ram(ram));
    cpu.reset();
    while cpu.cycles() > 0 {
        cpu.clock().unwrap();
    }
    run(&mut cpu, 1); // one NOP: PC = $8001, S = $FD
    cpu.interrupt();
    assert_eq!(cpu.prog_counter(), 0x9000);
    assert_eq!(cpu.read(0x01FD), 0x80); // PC high
    assert_eq!(cpu.read(0x01FC), 0x01); // PC low
    let pushed = cpu.read(0x01FB);
    assert_eq!(pushed & 0x10, 0x00); // Break clear in the pushed copy
    assert_eq!(pushed & 0x20, 0x20); // Unused set in the pushed copy
}

#[test]
fn sbc_with_borrow_out_clears_carry() {
    // SEC; LDA #$10; SBC #$20 -> A = $F0, no Carry (borrow), Negative
    let mut cpu = boot(&[0x38, 0xA9, 0x10, 0xE9, 0x20]);
    run(&mut cpu, 3);
    assert_eq!(cpu.a(), 0xF0);
    assert!(!cpu.is_flag(StatusFlags::Carry));
    assert!(cpu.is_flag(StatusFlags::Negative));
}

#[test]
fn asl_in_memory_writes_back() {
    // $0010 = $40; ASL $10 -> $80, Negative, no Carry
    let mut cpu = boot(&[0xA9, 0x40, 0x85, 0x10, 0x06, 0x10]);
    run(&mut cpu, 3);
    assert_eq!(cpu.read(0x0010), 0x80);
    assert!(cpu.is_flag(StatusFlags::Negative));
    assert!(!cpu.is_flag(StatusFlags::Carry));
}
