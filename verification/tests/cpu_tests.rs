use vcpu::bus::Device;
use vcpu::cpu::Cpu;
use vcpu::error::CpuError;
use vcpu::ram::Ram;
use vcpu::status::StatusFlags;

/// Build a CPU with 64 KiB of RAM holding `program` at `origin`, the reset
/// vector pointing at `origin`, and the reset sequence already consumed.
fn boot(origin: u16, program: &[u8]) -> Cpu {
    let mut ram = Ram::new(0x0000, 0xFFFF);
    ram.write_all(origin, program);
    ram.write_all(0xFFFC, &[(origin % 256) as u8, (origin / 256) as u8]);
    let mut cpu = Cpu::new();
    cpu.connect(Device::Ram(ram));
    cpu.reset();
    while cpu.cycles() > 0 {
        cpu.clock().unwrap();
    }
    cpu
}

/// Run one whole instruction and return how many clock ticks it took.
fn step(cpu: &mut Cpu) -> u32 {
    let mut ticks = 0;
    loop {
        cpu.clock().unwrap();
        ticks += 1;
        if cpu.cycles() == 0 {
            return ticks;
        }
    }
}

#[test]
fn reset_loads_vector_and_clears_state() {
    let mut ram = Ram::new(0x0000, 0xFFFF);
    ram.write_all(0xFFFC, &[0x00, 0x80]);
    let mut cpu = Cpu::new();
    cpu.connect(Device::Ram(ram));
    cpu.reset();
    assert_eq!(cpu.prog_counter(), 0x8000);
    assert_eq!(cpu.stack_ptr(), 0xFD);
    assert_eq!(cpu.cycles(), 8);
    assert_eq!(cpu.a(), 0);
    assert_eq!(cpu.x(), 0);
    assert_eq!(cpu.y(), 0);
    assert!(cpu.is_flag(StatusFlags::Unused));
    assert!(!cpu.is_flag(StatusFlags::Carry));
    assert!(!cpu.is_flag(StatusFlags::Zero));
    assert!(!cpu.is_flag(StatusFlags::Interrupt));
    assert!(!cpu.is_flag(StatusFlags::Decimal));
    assert!(!cpu.is_flag(StatusFlags::Break));
    assert!(!cpu.is_flag(StatusFlags::Overflow));
    assert!(!cpu.is_flag(StatusFlags::Negative));
}

#[test]
fn immediate_add_scenario() {
    // LDA #$10 ; ADC #$20 ; BRK
    let mut cpu = boot(0x8000, &[0xA9, 0x10, 0x69, 0x20, 0x00]);
    step(&mut cpu);
    step(&mut cpu);
    assert_eq!(cpu.a(), 0x30);
    assert!(!cpu.is_flag(StatusFlags::Carry));
    assert!(!cpu.is_flag(StatusFlags::Zero));
    assert!(!cpu.is_flag(StatusFlags::Negative));
    assert!(!cpu.is_flag(StatusFlags::Overflow));
}

#[test]
fn page_cross_penalty_scenario() {
    // LDX #1 ; LDA $10FF,X  with $1100 = $42
    let mut ram = Ram::new(0x0000, 0xFFFF);
    ram.write_all(0x8000, &[0xA2, 0x01, 0xBD, 0xFF, 0x10]);
    ram.write_all(0x1100, &[0x42]);
    ram.write_all(0xFFFC, &[0x00, 0x80]);
    let mut cpu = Cpu::new();
    cpu.connect(Device::Ram(ram));
    cpu.reset();
    while cpu.cycles() > 0 {
        cpu.clock().unwrap();
    }
    assert_eq!(step(&mut cpu), 2);
    let lda_ticks = step(&mut cpu);
    assert_eq!(cpu.a(), 0x42);
    assert_eq!(lda_ticks, 5);
}

#[test]
fn absolute_x_without_cross_is_base_cycles() {
    // LDX #1 ; LDA $1000,X  with $1001 = $42: no page cross, 4 cycles
    let mut ram = Ram::new(0x0000, 0xFFFF);
    ram.write_all(0x8000, &[0xA2, 0x01, 0xBD, 0x00, 0x10]);
    ram.write_all(0x1001, &[0x42]);
    ram.write_all(0xFFFC, &[0x00, 0x80]);
    let mut cpu = Cpu::new();
    cpu.connect(Device::Ram(ram));
    cpu.reset();
    while cpu.cycles() > 0 {
        cpu.clock().unwrap();
    }
    step(&mut cpu);
    assert_eq!(step(&mut cpu), 4);
    assert_eq!(cpu.a(), 0x42);
}

#[test]
fn absolute_y_page_cross_penalty() {
    // LDY #1 ; LDA $20FF,Y  with $2100 = $77: page cross, 5 cycles
    let mut ram = Ram::new(0x0000, 0xFFFF);
    ram.write_all(0x8000, &[0xA0, 0x01, 0xB9, 0xFF, 0x20]);
    ram.write_all(0x2100, &[0x77]);
    ram.write_all(0xFFFC, &[0x00, 0x80]);
    let mut cpu = Cpu::new();
    cpu.connect(Device::Ram(ram));
    cpu.reset();
    while cpu.cycles() > 0 {
        cpu.clock().unwrap();
    }
    step(&mut cpu);
    assert_eq!(step(&mut cpu), 5);
    assert_eq!(cpu.a(), 0x77);
}

#[test]
fn indirect_y_page_cross_penalty() {
    // LDY #1 ; LDA ($40),Y  with ($40) = $10FF and $1100 = $99: 6 cycles
    let mut ram = Ram::new(0x0000, 0xFFFF);
    ram.write_all(0x0040, &[0xFF, 0x10]);
    ram.write_all(0x1100, &[0x99]);
    ram.write_all(0x8000, &[0xA0, 0x01, 0xB1, 0x40]);
    ram.write_all(0xFFFC, &[0x00, 0x80]);
    let mut cpu = Cpu::new();
    cpu.connect(Device::Ram(ram));
    cpu.reset();
    while cpu.cycles() > 0 {
        cpu.clock().unwrap();
    }
    step(&mut cpu);
    assert_eq!(step(&mut cpu), 6);
    assert_eq!(cpu.a(), 0x99);
}

#[test]
fn indirect_jmp_page_boundary_bug() {
    // JMP ($30FF) with $30FF = $00, $3100 = $40, $3000 = $80.
    // The high byte comes from $3000 (the bug), so PC lands at $8000,
    // not $4000.
    let mut ram = Ram::new(0x0000, 0xFFFF);
    ram.write_all(0x0200, &[0x6C, 0xFF, 0x30]);
    ram.write_all(0x30FF, &[0x00]);
    ram.write_all(0x3100, &[0x40]);
    ram.write_all(0x3000, &[0x80]);
    ram.write_all(0xFFFC, &[0x00, 0x02]);
    let mut cpu = Cpu::new();
    cpu.connect(Device::Ram(ram));
    cpu.reset();
    while cpu.cycles() > 0 {
        cpu.clock().unwrap();
    }
    assert_eq!(step(&mut cpu), 5);
    assert_eq!(cpu.prog_counter(), 0x8000);
}

#[test]
fn loop_counter_scenario() {
    // LDX #10; STX $0000; LDX #3; STX $0001; LDY $0000; LDA #0;
    // loop: CLC; ADC $0001; DEY; BNE loop; STA $0002; NOP
    let program = [
        0xA2, 0x0A, 0x8E, 0x00, 0x00, 0xA2, 0x03, 0x8E, 0x01, 0x00, 0xAC, 0x00, 0x00, 0xA9, 0x00,
        0x18, 0x6D, 0x01, 0x00, 0x88, 0xD0, 0xFA, 0x8D, 0x02, 0x00, 0xEA,
    ];
    let mut cpu = boot(0x8000, &program);
    let halt = 0x8000 + program.len() as u16 - 1;
    let mut budget = 10_000;
    while cpu.prog_counter() != halt && budget > 0 {
        cpu.clock().unwrap();
        budget -= 1;
    }
    assert!(budget > 0);
    assert_eq!(cpu.read(0x0002), 0x1E);
    assert_eq!(cpu.y(), 0);
}

#[test]
fn brk_rti_round_trip() {
    // BRK from $8000 with the IRQ vector at $9000 pointing at a lone RTI.
    let mut ram = Ram::new(0x0000, 0xFFFF);
    ram.write_all(0x8000, &[0x00, 0xEA, 0xEA]);
    ram.write_all(0x9000, &[0x40]);
    ram.write_all(0xFFFC, &[0x00, 0x80]);
    ram.write_all(0xFFFE, &[0x00, 0x90]);
    let mut cpu = Cpu::new();
    cpu.connect(Device::Ram(ram));
    cpu.reset();
    while cpu.cycles() > 0 {
        cpu.clock().unwrap();
    }
    step(&mut cpu); // BRK
    assert_eq!(cpu.prog_counter(), 0x9000);
    assert_eq!(cpu.stack_ptr(), 0xFA);
    // Stack top to bottom: PCH, PCL, P with Break and Unused set.
    assert_eq!(cpu.read(0x01FD), 0x80);
    assert_eq!(cpu.read(0x01FC), 0x02);
    let pushed = cpu.read(0x01FB);
    assert_eq!(pushed & 0x10, 0x10); // Break set in the pushed copy
    assert_eq!(pushed & 0x20, 0x20); // Unused set in the pushed copy
    assert!(cpu.is_flag(StatusFlags::Interrupt));
    assert!(!cpu.is_flag(StatusFlags::Break));
    step(&mut cpu); // RTI
    assert_eq!(cpu.prog_counter(), 0x8002);
    assert!(!cpu.is_flag(StatusFlags::Break));
    assert!(cpu.is_flag(StatusFlags::Unused));
}

#[test]
fn stack_wrap_scenario() {
    // LDX #0; TXS; LDA #$5A; PHA; LDA #0; PLA
    let mut cpu = boot(0x8000, &[0xA2, 0x00, 0x9A, 0xA9, 0x5A, 0x48, 0xA9, 0x00, 0x68]);
    step(&mut cpu); // LDX #0
    step(&mut cpu); // TXS
    assert_eq!(cpu.stack_ptr(), 0x00);
    step(&mut cpu); // LDA #$5A
    step(&mut cpu); // PHA
    assert_eq!(cpu.read(0x0100), 0x5A);
    assert_eq!(cpu.stack_ptr(), 0xFF);
    step(&mut cpu); // LDA #0
    assert_eq!(cpu.a(), 0x00);
    step(&mut cpu); // PLA
    assert_eq!(cpu.stack_ptr(), 0x00);
    assert_eq!(cpu.a(), 0x5A);
}

#[test]
fn push_pop_is_identity() {
    let ram = Ram::new(0x0000, 0xFFFF);
    let mut cpu = Cpu::new();
    cpu.connect(Device::Ram(ram));
    let s_before = cpu.stack_ptr();
    cpu.push(0xAB);
    assert_eq!(cpu.stack_ptr(), s_before.wrapping_sub(1));
    let b = cpu.pop();
    assert_eq!(b, 0xAB);
    assert_eq!(cpu.stack_ptr(), s_before);
}

#[test]
fn php_plp_restores_flags() {
    // SEC; SED; PHP; CLC; CLD; PLP
    let mut cpu = boot(0x8000, &[0x38, 0xF8, 0x08, 0x18, 0xD8, 0x28]);
    step(&mut cpu);
    step(&mut cpu);
    step(&mut cpu); // PHP
    step(&mut cpu); // CLC
    step(&mut cpu); // CLD
    assert!(!cpu.is_flag(StatusFlags::Carry));
    assert!(!cpu.is_flag(StatusFlags::Decimal));
    step(&mut cpu); // PLP
    assert!(cpu.is_flag(StatusFlags::Carry));
    assert!(cpu.is_flag(StatusFlags::Decimal));
    assert!(!cpu.is_flag(StatusFlags::Break));
    assert!(cpu.is_flag(StatusFlags::Unused));
}

#[test]
fn adc_carry_zero_and_overflow() {
    // LDA #$FF; ADC #$01 -> A = 0, Carry, Zero, no signed overflow
    let mut cpu = boot(0x8000, &[0xA9, 0xFF, 0x69, 0x01]);
    step(&mut cpu);
    step(&mut cpu);
    assert_eq!(cpu.a(), 0x00);
    assert!(cpu.is_flag(StatusFlags::Carry));
    assert!(cpu.is_flag(StatusFlags::Zero));
    assert!(!cpu.is_flag(StatusFlags::Overflow));
    assert!(!cpu.is_flag(StatusFlags::Negative));
}

#[test]
fn adc_signed_overflow() {
    // LDA #$50; ADC #$50 -> A = $A0, Overflow and Negative, no carry
    let mut cpu = boot(0x8000, &[0xA9, 0x50, 0x69, 0x50]);
    step(&mut cpu);
    step(&mut cpu);
    assert_eq!(cpu.a(), 0xA0);
    assert!(cpu.is_flag(StatusFlags::Overflow));
    assert!(cpu.is_flag(StatusFlags::Negative));
    assert!(!cpu.is_flag(StatusFlags::Carry));
    assert!(!cpu.is_flag(StatusFlags::Zero));
}

#[test]
fn adc_uses_carry_in() {
    // SEC; LDA #$10; ADC #$20 -> A = $31
    let mut cpu = boot(0x8000, &[0x38, 0xA9, 0x10, 0x69, 0x20]);
    step(&mut cpu);
    step(&mut cpu);
    step(&mut cpu);
    assert_eq!(cpu.a(), 0x31);
}

#[test]
fn sbc_subtracts_with_borrow() {
    // SEC; LDA #$30; SBC #$10 -> A = $20, Carry (no borrow)
    let mut cpu = boot(0x8000, &[0x38, 0xA9, 0x30, 0xE9, 0x10]);
    step(&mut cpu);
    step(&mut cpu);
    step(&mut cpu);
    assert_eq!(cpu.a(), 0x20);
    assert!(cpu.is_flag(StatusFlags::Carry));
    assert!(!cpu.is_flag(StatusFlags::Zero));
}

#[test]
fn cmp_sets_carry_and_zero() {
    // LDA #5; CMP #3 -> Carry, not Zero
    let mut cpu = boot(0x8000, &[0xA9, 0x05, 0xC9, 0x03]);
    step(&mut cpu);
    step(&mut cpu);
    assert!(cpu.is_flag(StatusFlags::Carry));
    assert!(!cpu.is_flag(StatusFlags::Zero));
}

#[test]
fn cmp_equal_sets_carry_and_zero() {
    // LDA #5; CMP #5 -> Carry and Zero
    let mut cpu = boot(0x8000, &[0xA9, 0x05, 0xC9, 0x05]);
    step(&mut cpu);
    step(&mut cpu);
    assert!(cpu.is_flag(StatusFlags::Carry));
    assert!(cpu.is_flag(StatusFlags::Zero));
}

#[test]
fn cmp_less_clears_carry() {
    // LDA #5; CMP #7 -> no Carry, no Zero, Negative from the difference
    let mut cpu = boot(0x8000, &[0xA9, 0x05, 0xC9, 0x07]);
    step(&mut cpu);
    step(&mut cpu);
    assert!(!cpu.is_flag(StatusFlags::Carry));
    assert!(!cpu.is_flag(StatusFlags::Zero));
    assert!(cpu.is_flag(StatusFlags::Negative));
}

#[test]
fn branch_taken_costs_three_cycles() {
    // LDA #1 (Z clear); BNE +4: taken, no page cross -> 2 + 1 cycles
    let mut cpu = boot(0x8000, &[0xA9, 0x01, 0xD0, 0x04]);
    step(&mut cpu);
    assert_eq!(step(&mut cpu), 3);
    assert_eq!(cpu.prog_counter(), 0x8008);
}

#[test]
fn branch_not_taken_costs_two_cycles() {
    // LDA #0 (Z set); BNE +4: not taken -> 2 cycles, fall through
    let mut cpu = boot(0x8000, &[0xA9, 0x00, 0xD0, 0x04]);
    step(&mut cpu);
    assert_eq!(step(&mut cpu), 2);
    assert_eq!(cpu.prog_counter(), 0x8004);
}

#[test]
fn branch_page_cross_costs_four_cycles() {
    // At $80F0: LDA #1; BNE +$20 -> pre-branch PC $80F4, target $8114
    let mut cpu = boot(0x80F0, &[0xA9, 0x01, 0xD0, 0x20]);
    step(&mut cpu);
    assert_eq!(step(&mut cpu), 4);
    assert_eq!(cpu.prog_counter(), 0x8114);
}

#[test]
fn branch_backward_displacement_is_signed() {
    // At $8000: LDA #1; BNE -2 -> target is the BNE opcode itself ($8002)
    let mut cpu = boot(0x8000, &[0xA9, 0x01, 0xD0, 0xFE]);
    step(&mut cpu);
    step(&mut cpu);
    assert_eq!(cpu.prog_counter(), 0x8002);
}

#[test]
fn invalid_opcode_is_reported() {
    let mut cpu = boot(0x8000, &[0xFF]);
    assert_eq!(cpu.clock(), Err(CpuError::InvalidOpCode(0xFF)));
    assert_eq!(cpu.prog_counter(), 0x8001);
}

#[test]
fn interrupt_respects_interrupt_disable() {
    // SEI; then a maskable interrupt must be ignored.
    let mut cpu = boot(0x8000, &[0x78, 0xEA]);
    step(&mut cpu);
    assert!(cpu.is_flag(StatusFlags::Interrupt));
    let pc = cpu.prog_counter();
    let s = cpu.stack_ptr();
    cpu.interrupt();
    assert_eq!(cpu.prog_counter(), pc);
    assert_eq!(cpu.stack_ptr(), s);
}

#[test]
fn interrupt_vectors_and_costs_seven_cycles() {
    let mut ram = Ram::new(0x0000, 0xFFFF);
    ram.write_all(0x8000, &[0xEA]);
    ram.write_all(0xFFFC, &[0x00, 0x80]);
    ram.write_all(0xFFFE, &[0x34, 0x12]);
    let mut cpu = Cpu::new();
    cpu.connect(Device::Ram(ram));
    cpu.reset();
    while cpu.cycles() > 0 {
        cpu.clock().unwrap();
    }
    let s = cpu.stack_ptr();
    cpu.interrupt();
    assert_eq!(cpu.prog_counter(), 0x1234);
    assert_eq!(cpu.cycles(), 7);
    assert_eq!(cpu.stack_ptr(), s.wrapping_sub(3));
    assert!(cpu.is_flag(StatusFlags::Interrupt));
}

#[test]
fn nmi_ignores_mask_and_costs_eight_cycles() {
    let mut ram = Ram::new(0x0000, 0xFFFF);
    ram.write_all(0x8000, &[0x78, 0xEA]);
    ram.write_all(0xFFFC, &[0x00, 0x80]);
    ram.write_all(0xFFFA, &[0x78, 0x56]);
    let mut cpu = Cpu::new();
    cpu.connect(Device::Ram(ram));
    cpu.reset();
    while cpu.cycles() > 0 {
        cpu.clock().unwrap();
    }
    step(&mut cpu); // SEI
    cpu.non_maskable_interrupt();
    assert_eq!(cpu.prog_counter(), 0x5678);
    assert_eq!(cpu.cycles(), 8);
}

#[test]
fn jsr_rts_round_trip() {
    // JSR $9000; NOP at $8003; at $9000: LDA #7; RTS
    let mut ram = Ram::new(0x0000, 0xFFFF);
    ram.write_all(0x8000, &[0x20, 0x00, 0x90, 0xEA]);
    ram.write_all(0x9000, &[0xA9, 0x07, 0x60]);
    ram.write_all(0xFFFC, &[0x00, 0x80]);
    let mut cpu = Cpu::new();
    cpu.connect(Device::Ram(ram));
    cpu.reset();
    while cpu.cycles() > 0 {
        cpu.clock().unwrap();
    }
    assert_eq!(step(&mut cpu), 6); // JSR
    assert_eq!(cpu.prog_counter(), 0x9000);
    step(&mut cpu); // LDA #7
    assert_eq!(step(&mut cpu), 6); // RTS
    assert_eq!(cpu.prog_counter(), 0x8003);
    assert_eq!(cpu.a(), 0x07);
}

#[test]
fn read_modify_write_in_memory() {
    // INC $0010 twice; ASL $0010
    let mut ram = Ram::new(0x0000, 0xFFFF);
    ram.write_all(0x0010, &[0x07]);
    ram.write_all(0x8000, &[0xE6, 0x10, 0xE6, 0x10, 0x06, 0x10]);
    ram.write_all(0xFFFC, &[0x00, 0x80]);
    let mut cpu = Cpu::new();
    cpu.connect(Device::Ram(ram));
    cpu.reset();
    while cpu.cycles() > 0 {
        cpu.clock().unwrap();
    }
    assert_eq!(step(&mut cpu), 5);
    assert_eq!(cpu.read(0x0010), 0x08);
    step(&mut cpu);
    assert_eq!(cpu.read(0x0010), 0x09);
    step(&mut cpu);
    assert_eq!(cpu.read(0x0010), 0x12);
}
