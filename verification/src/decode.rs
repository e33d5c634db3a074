//! The decoder: from an opcode byte to a decoded `Instruction`.
//!
//! `opcode_info` is the canonical table over the 151 documented 6502
//! opcodes; it fixes the mnemonic, the addressing mode, and the base cycle
//! count of each. `Cpu::decode` realises the table, consuming the operand
//! bytes of the mode by advancing the program counter.

use vstd::prelude::*;

use crate::cpu::{Cpu, CpuState, Machine};
use crate::cpu::mem_frame;
use crate::cpu::word;
use crate::error::CpuError;
use crate::instruction::{AddressingMode, Instruction, ModeKind, OpCode};

verus! {

/// The canonical documented-opcode table: mnemonic, addressing mode, and
/// base cycle count for each defined opcode byte, `None` for the rest.
pub open spec fn opcode_info(op: u8) -> Option<(OpCode, ModeKind, u8)> {
    match op {
        0x69u8 => Some((OpCode::ADC, ModeKind::Immediate, 2u8)),
        0x65u8 => Some((OpCode::ADC, ModeKind::ZeroPage, 3u8)),
        0x75u8 => Some((OpCode::ADC, ModeKind::ZeroPageX, 4u8)),
        0x6Du8 => Some((OpCode::ADC, ModeKind::Absolute, 4u8)),
        0x7Du8 => Some((OpCode::ADC, ModeKind::AbsoluteX, 4u8)),
        0x79u8 => Some((OpCode::ADC, ModeKind::AbsoluteY, 4u8)),
        0x61u8 => Some((OpCode::ADC, ModeKind::IndirectX, 6u8)),
        0x71u8 => Some((OpCode::ADC, ModeKind::IndirectY, 5u8)),
        0x29u8 => Some((OpCode::AND, ModeKind::Immediate, 2u8)),
        0x25u8 => Some((OpCode::AND, ModeKind::ZeroPage, 3u8)),
        0x35u8 => Some((OpCode::AND, ModeKind::ZeroPageX, 4u8)),
        0x2Du8 => Some((OpCode::AND, ModeKind::Absolute, 4u8)),
        0x3Du8 => Some((OpCode::AND, ModeKind::AbsoluteX, 4u8)),
        0x39u8 => Some((OpCode::AND, ModeKind::AbsoluteY, 4u8)),
        0x21u8 => Some((OpCode::AND, ModeKind::IndirectX, 6u8)),
        0x31u8 => Some((OpCode::AND, ModeKind::IndirectY, 5u8)),
        0x0Au8 => Some((OpCode::ASL, ModeKind::Accumulator, 2u8)),
        0x06u8 => Some((OpCode::ASL, ModeKind::ZeroPage, 5u8)),
        0x16u8 => Some((OpCode::ASL, ModeKind::ZeroPageX, 6u8)),
        0x0Eu8 => Some((OpCode::ASL, ModeKind::Absolute, 6u8)),
        0x1Eu8 => Some((OpCode::ASL, ModeKind::AbsoluteX, 7u8)),
        0x24u8 => Some((OpCode::BIT, ModeKind::ZeroPage, 3u8)),
        0x2Cu8 => Some((OpCode::BIT, ModeKind::Absolute, 4u8)),
        0x10u8 => Some((OpCode::BPL, ModeKind::Relative, 2u8)),
        0x30u8 => Some((OpCode::BMI, ModeKind::Relative, 2u8)),
        0x50u8 => Some((OpCode::BVC, ModeKind::Relative, 2u8)),
        0x70u8 => Some((OpCode::BVS, ModeKind::Relative, 2u8)),
        0x90u8 => Some((OpCode::BCC, ModeKind::Relative, 2u8)),
        0xB0u8 => Some((OpCode::BCS, ModeKind::Relative, 2u8)),
        0xD0u8 => Some((OpCode::BNE, ModeKind::Relative, 2u8)),
        0xF0u8 => Some((OpCode::BEQ, ModeKind::Relative, 2u8)),
        0x00u8 => Some((OpCode::BRK, ModeKind::Implied, 7u8)),
        0xC9u8 => Some((OpCode::CMP, ModeKind::Immediate, 2u8)),
        0xC5u8 => Some((OpCode::CMP, ModeKind::ZeroPage, 3u8)),
        0xD5u8 => Some((OpCode::CMP, ModeKind::ZeroPageX, 4u8)),
        0xCDu8 => Some((OpCode::CMP, ModeKind::Absolute, 4u8)),
        0xDDu8 => Some((OpCode::CMP, ModeKind::AbsoluteX, 4u8)),
        0xD9u8 => Some((OpCode::CMP, ModeKind::AbsoluteY, 4u8)),
        0xC1u8 => Some((OpCode::CMP, ModeKind::IndirectX, 6u8)),
        0xD1u8 => Some((OpCode::CMP, ModeKind::IndirectY, 5u8)),
        0xE0u8 => Some((OpCode::CPX, ModeKind::Immediate, 2u8)),
        0xE4u8 => Some((OpCode::CPX, ModeKind::ZeroPage, 3u8)),
        0xECu8 => Some((OpCode::CPX, ModeKind::Absolute, 4u8)),
        0xC0u8 => Some((OpCode::CPY, ModeKind::Immediate, 2u8)),
        0xC4u8 => Some((OpCode::CPY, ModeKind::ZeroPage, 3u8)),
        0xCCu8 => Some((OpCode::CPY, ModeKind::Absolute, 4u8)),
        0xC6u8 => Some((OpCode::DEC, ModeKind::ZeroPage, 5u8)),
        0xD6u8 => Some((OpCode::DEC, ModeKind::ZeroPageX, 6u8)),
        0xCEu8 => Some((OpCode::DEC, ModeKind::Absolute, 6u8)),
        0xDEu8 => Some((OpCode::DEC, ModeKind::AbsoluteX, 7u8)),
        0x49u8 => Some((OpCode::EOR, ModeKind::Immediate, 2u8)),
        0x45u8 => Some((OpCode::EOR, ModeKind::ZeroPage, 3u8)),
        0x55u8 => Some((OpCode::EOR, ModeKind::ZeroPageX, 4u8)),
        0x4Du8 => Some((OpCode::EOR, ModeKind::Absolute, 4u8)),
        0x5Du8 => Some((OpCode::EOR, ModeKind::AbsoluteX, 4u8)),
        0x59u8 => Some((OpCode::EOR, ModeKind::AbsoluteY, 4u8)),
        0x41u8 => Some((OpCode::EOR, ModeKind::IndirectX, 6u8)),
        0x51u8 => Some((OpCode::EOR, ModeKind::IndirectY, 5u8)),
        0x18u8 => Some((OpCode::CLC, ModeKind::Implied, 2u8)),
        0x38u8 => Some((OpCode::SEC, ModeKind::Implied, 2u8)),
        0x58u8 => Some((OpCode::CLI, ModeKind::Implied, 2u8)),
        0x78u8 => Some((OpCode::SEI, ModeKind::Implied, 2u8)),
        0xB8u8 => Some((OpCode::CLV, ModeKind::Implied, 2u8)),
        0xD8u8 => Some((OpCode::CLD, ModeKind::Implied, 2u8)),
        0xF8u8 => Some((OpCode::SED, ModeKind::Implied, 2u8)),
        0xE6u8 => Some((OpCode::INC, ModeKind::ZeroPage, 5u8)),
        0xF6u8 => Some((OpCode::INC, ModeKind::ZeroPageX, 6u8)),
        0xEEu8 => Some((OpCode::INC, ModeKind::Absolute, 6u8)),
        0xFEu8 => Some((OpCode::INC, ModeKind::AbsoluteX, 7u8)),
        0x4Cu8 => Some((OpCode::JMP, ModeKind::Absolute, 3u8)),
        0x6Cu8 => Some((OpCode::JMP, ModeKind::Indirect, 5u8)),
        0x20u8 => Some((OpCode::JSR, ModeKind::Absolute, 6u8)),
        0xA9u8 => Some((OpCode::LDA, ModeKind::Immediate, 2u8)),
        0xA5u8 => Some((OpCode::LDA, ModeKind::ZeroPage, 3u8)),
        0xB5u8 => Some((OpCode::LDA, ModeKind::ZeroPageX, 4u8)),
        0xADu8 => Some((OpCode::LDA, ModeKind::Absolute, 4u8)),
        0xBDu8 => Some((OpCode::LDA, ModeKind::AbsoluteX, 4u8)),
        0xB9u8 => Some((OpCode::LDA, ModeKind::AbsoluteY, 4u8)),
        0xA1u8 => Some((OpCode::LDA, ModeKind::IndirectX, 6u8)),
        0xB1u8 => Some((OpCode::LDA, ModeKind::IndirectY, 5u8)),
        0xA2u8 => Some((OpCode::LDX, ModeKind::Immediate, 2u8)),
        0xA6u8 => Some((OpCode::LDX, ModeKind::ZeroPage, 3u8)),
        0xB6u8 => Some((OpCode::LDX, ModeKind::ZeroPageY, 4u8)),
        0xAEu8 => Some((OpCode::LDX, ModeKind::Absolute, 4u8)),
        0xBEu8 => Some((OpCode::LDX, ModeKind::AbsoluteY, 4u8)),
        0xA0u8 => Some((OpCode::LDY, ModeKind::Immediate, 2u8)),
        0xA4u8 => Some((OpCode::LDY, ModeKind::ZeroPage, 3u8)),
        0xB4u8 => Some((OpCode::LDY, ModeKind::ZeroPageX, 4u8)),
        0xACu8 => Some((OpCode::LDY, ModeKind::Absolute, 4u8)),
        0xBCu8 => Some((OpCode::LDY, ModeKind::AbsoluteX, 4u8)),
        0x4Au8 => Some((OpCode::LSR, ModeKind::Accumulator, 2u8)),
        0x46u8 => Some((OpCode::LSR, ModeKind::ZeroPage, 5u8)),
        0x56u8 => Some((OpCode::LSR, ModeKind::ZeroPageX, 6u8)),
        0x4Eu8 => Some((OpCode::LSR, ModeKind::Absolute, 6u8)),
        0x5Eu8 => Some((OpCode::LSR, ModeKind::AbsoluteX, 7u8)),
        0xEAu8 => Some((OpCode::NOP, ModeKind::Implied, 2u8)),
        0x09u8 => Some((OpCode::ORA, ModeKind::Immediate, 2u8)),
        0x05u8 => Some((OpCode::ORA, ModeKind::ZeroPage, 3u8)),
        0x15u8 => Some((OpCode::ORA, ModeKind::ZeroPageX, 4u8)),
        0x0Du8 => Some((OpCode::ORA, ModeKind::Absolute, 4u8)),
        0x1Du8 => Some((OpCode::ORA, ModeKind::AbsoluteX, 4u8)),
        0x19u8 => Some((OpCode::ORA, ModeKind::AbsoluteY, 4u8)),
        0x01u8 => Some((OpCode::ORA, ModeKind::IndirectX, 6u8)),
        0x11u8 => Some((OpCode::ORA, ModeKind::IndirectY, 5u8)),
        0xAAu8 => Some((OpCode::TAX, ModeKind::Implied, 2u8)),
        0x8Au8 => Some((OpCode::TXA, ModeKind::Implied, 2u8)),
        0xCAu8 => Some((OpCode::DEX, ModeKind::Implied, 2u8)),
        0xE8u8 => Some((OpCode::INX, ModeKind::Implied, 2u8)),
        0xA8u8 => Some((OpCode::TAY, ModeKind::Implied, 2u8)),
        0x98u8 => Some((OpCode::TYA, ModeKind::Implied, 2u8)),
        0x88u8 => Some((OpCode::DEY, ModeKind::Implied, 2u8)),
        0xC8u8 => Some((OpCode::INY, ModeKind::Implied, 2u8)),
        0x2Au8 => Some((OpCode::ROL, ModeKind::Accumulator, 2u8)),
        0x26u8 => Some((OpCode::ROL, ModeKind::ZeroPage, 5u8)),
        0x36u8 => Some((OpCode::ROL, ModeKind::ZeroPageX, 6u8)),
        0x2Eu8 => Some((OpCode::ROL, ModeKind::Absolute, 6u8)),
        0x3Eu8 => Some((OpCode::ROL, ModeKind::AbsoluteX, 7u8)),
        0x6Au8 => Some((OpCode::ROR, ModeKind::Accumulator, 2u8)),
        0x66u8 => Some((OpCode::ROR, ModeKind::ZeroPage, 5u8)),
        0x76u8 => Some((OpCode::ROR, ModeKind::ZeroPageX, 6u8)),
        0x6Eu8 => Some((OpCode::ROR, ModeKind::Absolute, 6u8)),
        0x7Eu8 => Some((OpCode::ROR, ModeKind::AbsoluteX, 7u8)),
        0x40u8 => Some((OpCode::RTI, ModeKind::Implied, 6u8)),
        0x60u8 => Some((OpCode::RTS, ModeKind::Implied, 6u8)),
        0xE9u8 => Some((OpCode::SBC, ModeKind::Immediate, 2u8)),
        0xE5u8 => Some((OpCode::SBC, ModeKind::ZeroPage, 3u8)),
        0xF5u8 => Some((OpCode::SBC, ModeKind::ZeroPageX, 4u8)),
        0xEDu8 => Some((OpCode::SBC, ModeKind::Absolute, 4u8)),
        0xFDu8 => Some((OpCode::SBC, ModeKind::AbsoluteX, 4u8)),
        0xF9u8 => Some((OpCode::SBC, ModeKind::AbsoluteY, 4u8)),
        0xE1u8 => Some((OpCode::SBC, ModeKind::IndirectX, 6u8)),
        0xF1u8 => Some((OpCode::SBC, ModeKind::IndirectY, 5u8)),
        0x85u8 => Some((OpCode::STA, ModeKind::ZeroPage, 3u8)),
        0x95u8 => Some((OpCode::STA, ModeKind::ZeroPageX, 4u8)),
        0x8Du8 => Some((OpCode::STA, ModeKind::Absolute, 4u8)),
        0x9Du8 => Some((OpCode::STA, ModeKind::AbsoluteX, 5u8)),
        0x99u8 => Some((OpCode::STA, ModeKind::AbsoluteY, 5u8)),
        0x81u8 => Some((OpCode::STA, ModeKind::IndirectX, 6u8)),
        0x91u8 => Some((OpCode::STA, ModeKind::IndirectY, 6u8)),
        0x9Au8 => Some((OpCode::TXS, ModeKind::Implied, 2u8)),
        0xBAu8 => Some((OpCode::TSX, ModeKind::Implied, 2u8)),
        0x48u8 => Some((OpCode::PHA, ModeKind::Implied, 3u8)),
        0x68u8 => Some((OpCode::PLA, ModeKind::Implied, 4u8)),
        0x08u8 => Some((OpCode::PHP, ModeKind::Implied, 3u8)),
        0x28u8 => Some((OpCode::PLP, ModeKind::Implied, 4u8)),
        0x86u8 => Some((OpCode::STX, ModeKind::ZeroPage, 3u8)),
        0x96u8 => Some((OpCode::STX, ModeKind::ZeroPageY, 4u8)),
        0x8Eu8 => Some((OpCode::STX, ModeKind::Absolute, 4u8)),
        0x84u8 => Some((OpCode::STY, ModeKind::ZeroPage, 3u8)),
        0x94u8 => Some((OpCode::STY, ModeKind::ZeroPageX, 4u8)),
        0x8Cu8 => Some((OpCode::STY, ModeKind::Absolute, 4u8)),
        _ => None,
    }
}

/// The addressing mode that decoding builds when the machine state is `c`:
/// the payload is the one or two literal bytes at the program counter.
pub open spec fn spec_mode(mk: ModeKind, c: Machine) -> AddressingMode {
    let b1 = c.mem[c.regs.pc];
    let w = word(b1, c.mem[c.regs.pc.wrapping_add(1)]);
    match mk {
        ModeKind::Accumulator => AddressingMode::Accumulator,
        ModeKind::Implied => AddressingMode::Implied,
        ModeKind::Immediate => AddressingMode::Immediate(b1),
        ModeKind::Relative => AddressingMode::Relative(b1),
        ModeKind::ZeroPage => AddressingMode::ZeroPage(b1),
        ModeKind::ZeroPageX => AddressingMode::ZeroPageX(b1),
        ModeKind::ZeroPageY => AddressingMode::ZeroPageY(b1),
        ModeKind::Absolute => AddressingMode::Absolute(w),
        ModeKind::AbsoluteX => AddressingMode::AbsoluteX(w),
        ModeKind::AbsoluteY => AddressingMode::AbsoluteY(w),
        ModeKind::Indirect => AddressingMode::Indirect(w),
        ModeKind::IndirectX => AddressingMode::IndirectX(b1),
        ModeKind::IndirectY => AddressingMode::IndirectY(b1),
    }
}

impl AddressingMode {
    /// Accumulator mode consumes no operand bytes.
    pub fn accumulator(cpu: &mut Cpu) -> (r: Result<AddressingMode, CpuError>)
        requires
            old(cpu).wf(),
        ensures
            final(cpu).wf(),
            *final(cpu) == *old(cpu),
            r == Ok::<AddressingMode, CpuError>(AddressingMode::Accumulator),
    {
        Ok(AddressingMode::Accumulator)
    }

    /// Implied mode consumes no operand bytes.
    pub fn implied(cpu: &mut Cpu) -> (r: Result<AddressingMode, CpuError>)
        requires
            old(cpu).wf(),
        ensures
            final(cpu).wf(),
            *final(cpu) == *old(cpu),
            r == Ok::<AddressingMode, CpuError>(AddressingMode::Implied),
    {
        Ok(AddressingMode::Implied)
    }

    /// Consume one byte: the immediate operand itself.
    pub fn immediate(cpu: &mut Cpu) -> (r: Result<AddressingMode, CpuError>)
        requires
            old(cpu).wf(),
        ensures
            final(cpu).wf(),
            one_byte_mode_post(*old(cpu), *final(cpu)),
            r == Ok::<AddressingMode, CpuError>(
                AddressingMode::Immediate(old(cpu).mem(old(cpu).regs().pc)),
            ),
    {
        let value = match cpu.fetch() {
            Ok(v) => v,
            Err(e) => return Err(e),
        };
        Ok(AddressingMode::Immediate(value))
    }

    /// Consume one byte: the signed branch displacement.
    pub fn relative(cpu: &mut Cpu) -> (r: Result<AddressingMode, CpuError>)
        requires
            old(cpu).wf(),
        ensures
            final(cpu).wf(),
            one_byte_mode_post(*old(cpu), *final(cpu)),
            r == Ok::<AddressingMode, CpuError>(
                AddressingMode::Relative(old(cpu).mem(old(cpu).regs().pc)),
            ),
    {
        let value = match cpu.fetch() {
            Ok(v) => v,
            Err(e) => return Err(e),
        };
        Ok(AddressingMode::Relative(value))
    }

    /// Consume one byte: a page-zero address.
    pub fn zero_page(cpu: &mut Cpu) -> (r: Result<AddressingMode, CpuError>)
        requires
            old(cpu).wf(),
        ensures
            final(cpu).wf(),
            one_byte_mode_post(*old(cpu), *final(cpu)),
            r == Ok::<AddressingMode, CpuError>(
                AddressingMode::ZeroPage(old(cpu).mem(old(cpu).regs().pc)),
            ),
    {
        let value = match cpu.fetch() {
            Ok(v) => v,
            Err(e) => return Err(e),
        };
        Ok(AddressingMode::ZeroPage(value))
    }

    /// Consume one byte: a page-zero address to be indexed by `X`.
    pub fn zero_page_x(cpu: &mut Cpu) -> (r: Result<AddressingMode, CpuError>)
        requires
            old(cpu).wf(),
        ensures
            final(cpu).wf(),
            one_byte_mode_post(*old(cpu), *final(cpu)),
            r == Ok::<AddressingMode, CpuError>(
                AddressingMode::ZeroPageX(old(cpu).mem(old(cpu).regs().pc)),
            ),
    {
        let value = match cpu.fetch() {
            Ok(v) => v,
            Err(e) => return Err(e),
        };
        Ok(AddressingMode::ZeroPageX(value))
    }

    /// Consume one byte: a page-zero address to be indexed by `Y`.
    pub fn zero_page_y(cpu: &mut Cpu) -> (r: Result<AddressingMode, CpuError>)
        requires
            old(cpu).wf(),
        ensures
            final(cpu).wf(),
            one_byte_mode_post(*old(cpu), *final(cpu)),
            r == Ok::<AddressingMode, CpuError>(
                AddressingMode::ZeroPageY(old(cpu).mem(old(cpu).regs().pc)),
            ),
    {
        let value = match cpu.fetch() {
            Ok(v) => v,
            Err(e) => return Err(e),
        };
        Ok(AddressingMode::ZeroPageY(value))
    }

    /// Consume a little-endian word: an absolute address.
    pub fn absolute(cpu: &mut Cpu) -> (r: Result<AddressingMode, CpuError>)
        requires
            old(cpu).wf(),
        ensures
            final(cpu).wf(),
            two_byte_mode_post(*old(cpu), *final(cpu)),
            r == Ok::<AddressingMode, CpuError>(
                AddressingMode::Absolute(spec_operand_word(old(cpu).m())),
            ),
    {
        let w = fetch_word(cpu);
        Ok(AddressingMode::Absolute(w))
    }

    /// Consume a little-endian word: an absolute address to be indexed by `X`.
    pub fn absolute_x(cpu: &mut Cpu) -> (r: Result<AddressingMode, CpuError>)
        requires
            old(cpu).wf(),
        ensures
            final(cpu).wf(),
            two_byte_mode_post(*old(cpu), *final(cpu)),
            r == Ok::<AddressingMode, CpuError>(
                AddressingMode::AbsoluteX(spec_operand_word(old(cpu).m())),
            ),
    {
        let w = fetch_word(cpu);
        Ok(AddressingMode::AbsoluteX(w))
    }

    /// Consume a little-endian word: an absolute address to be indexed by `Y`.
    pub fn absolute_y(cpu: &mut Cpu) -> (r: Result<AddressingMode, CpuError>)
        requires
            old(cpu).wf(),
        ensures
            final(cpu).wf(),
            two_byte_mode_post(*old(cpu), *final(cpu)),
            r == Ok::<AddressingMode, CpuError>(
                AddressingMode::AbsoluteY(spec_operand_word(old(cpu).m())),
            ),
    {
        let w = fetch_word(cpu);
        Ok(AddressingMode::AbsoluteY(w))
    }

    /// Consume a little-endian word: the pointer an indirect jump reads.
    pub fn indirect(cpu: &mut Cpu) -> (r: Result<AddressingMode, CpuError>)
        requires
            old(cpu).wf(),
        ensures
            final(cpu).wf(),
            two_byte_mode_post(*old(cpu), *final(cpu)),
            r == Ok::<AddressingMode, CpuError>(
                AddressingMode::Indirect(spec_operand_word(old(cpu).m())),
            ),
    {
        let w = fetch_word(cpu);
        Ok(AddressingMode::Indirect(w))
    }

    /// Consume one byte: a page-zero pointer to be indexed by `X` before
    /// dereferencing.
    pub fn indirect_x(cpu: &mut Cpu) -> (r: Result<AddressingMode, CpuError>)
        requires
            old(cpu).wf(),
        ensures
            final(cpu).wf(),
            one_byte_mode_post(*old(cpu), *final(cpu)),
            r == Ok::<AddressingMode, CpuError>(
                AddressingMode::IndirectX(old(cpu).mem(old(cpu).regs().pc)),
            ),
    {
        let value = match cpu.fetch() {
            Ok(v) => v,
            Err(e) => return Err(e),
        };
        Ok(AddressingMode::IndirectX(value))
    }

    /// Consume one byte: a page-zero pointer to be dereferenced and then
    /// indexed by `Y`.
    pub fn indirect_y(cpu: &mut Cpu) -> (r: Result<AddressingMode, CpuError>)
        requires
            old(cpu).wf(),
        ensures
            final(cpu).wf(),
            one_byte_mode_post(*old(cpu), *final(cpu)),
            r == Ok::<AddressingMode, CpuError>(
                AddressingMode::IndirectY(old(cpu).mem(old(cpu).regs().pc)),
            ),
    {
        let value = match cpu.fetch() {
            Ok(v) => v,
            Err(e) => return Err(e),
        };
        Ok(AddressingMode::IndirectY(value))
    }
}

/// The little-endian word stored at the program counter.
pub open spec fn spec_operand_word(c: Machine) -> u16 {
    word(c.mem[c.regs.pc], c.mem[c.regs.pc.wrapping_add(1)])
}

/// A one-operand-byte mode advanced the program counter by exactly 1 and
/// changed nothing else.
pub open spec fn one_byte_mode_post(pre: Cpu, post: Cpu) -> bool {
    &&& post.regs() == (CpuState { pc: pre.regs().pc.wrapping_add(1), ..pre.regs() })
    &&& mem_frame(pre, post)
}

/// A two-operand-byte mode advanced the program counter by exactly 2 and
/// changed nothing else.
pub open spec fn two_byte_mode_post(pre: Cpu, post: Cpu) -> bool {
    &&& post.regs() == (CpuState { pc: pre.regs().pc.wrapping_add(2), ..pre.regs() })
    &&& mem_frame(pre, post)
}

/// Fetch two bytes and assemble them little-endian.
fn fetch_word(cpu: &mut Cpu) -> (w: u16)
    requires
        old(cpu).wf(),
    ensures
        final(cpu).wf(),
        two_byte_mode_post(*old(cpu), *final(cpu)),
        w == spec_operand_word(old(cpu).m()),
{
    let first = match cpu.fetch() {
        Ok(v) => v,
        Err(_) => 0,
    };
    let second = match cpu.fetch() {
        Ok(v) => v,
        Err(_) => 0,
    };
    (first as u16) + 256 * (second as u16)
}

impl Cpu {
    /// Decode one already-fetched opcode byte against the canonical table,
    /// consuming the mode's operand bytes by advancing the program counter.
    /// An undocumented opcode yields `InvalidOpCode` and leaves the machine
    /// untouched.
    #[verifier::rlimit(100)]
    pub fn decode(&mut self, opcode: u8) -> (r: Result<Instruction, CpuError>)
        requires
            old(self).wf(),
        ensures
            final(self).wf(),
            mem_frame(*old(self), *final(self)),
            match opcode_info(opcode) {
                None => {
                    &&& r == Err::<Instruction, CpuError>(CpuError::InvalidOpCode(opcode))
                    &&& final(self).regs() == old(self).regs()
                },
                Some(info) => {
                    &&& r matches Ok(instr)
                    &&& instr == (Instruction {
                        opcode: info.0,
                        mode: spec_mode(info.1, old(self).m()),
                        cycles: info.2,
                    })
                    &&& 2 <= info.2 <= 7
                    &&& final(self).regs() == (CpuState {
                        pc: old(self).regs().pc.wrapping_add(info.1.operand_bytes()),
                        ..old(self).regs()
                    })
                },
            },
    {
        let (opcode, mode, cycles): (OpCode, Result<AddressingMode, CpuError>, u8) = match opcode {
            0x69 => (OpCode::ADC, AddressingMode::immediate(self), 2),
            0x65 => (OpCode::ADC, AddressingMode::zero_page(self), 3),
            0x75 => (OpCode::ADC, AddressingMode::zero_page_x(self), 4),
            0x6D => (OpCode::ADC, AddressingMode::absolute(self), 4),
            0x7D => (OpCode::ADC, AddressingMode::absolute_x(self), 4),
            0x79 => (OpCode::ADC, AddressingMode::absolute_y(self), 4),
            0x61 => (OpCode::ADC, AddressingMode::indirect_x(self), 6),
            0x71 => (OpCode::ADC, AddressingMode::indirect_y(self), 5),
            0x29 => (OpCode::AND, AddressingMode::immediate(self), 2),
            0x25 => (OpCode::AND, AddressingMode::zero_page(self), 3),
            0x35 => (OpCode::AND, AddressingMode::zero_page_x(self), 4),
            0x2D => (OpCode::AND, AddressingMode::absolute(self), 4),
            0x3D => (OpCode::AND, AddressingMode::absolute_x(self), 4),
            0x39 => (OpCode::AND, AddressingMode::absolute_y(self), 4),
            0x21 => (OpCode::AND, AddressingMode::indirect_x(self), 6),
            0x31 => (OpCode::AND, AddressingMode::indirect_y(self), 5),
            0x0A => (OpCode::ASL, AddressingMode::accumulator(self), 2),
            0x06 => (OpCode::ASL, AddressingMode::zero_page(self), 5),
            0x16 => (OpCode::ASL, AddressingMode::zero_page_x(self), 6),
            0x0E => (OpCode::ASL, AddressingMode::absolute(self), 6),
            0x1E => (OpCode::ASL, AddressingMode::absolute_x(self), 7),
            0x24 => (OpCode::BIT, AddressingMode::zero_page(self), 3),
            0x2C => (OpCode::BIT, AddressingMode::absolute(self), 4),
            0x10 => (OpCode::BPL, AddressingMode::relative(self), 2),
            0x30 => (OpCode::BMI, AddressingMode::relative(self), 2),
            0x50 => (OpCode::BVC, AddressingMode::relative(self), 2),
            0x70 => (OpCode::BVS, AddressingMode::relative(self), 2),
            0x90 => (OpCode::BCC, AddressingMode::relative(self), 2),
            0xB0 => (OpCode::BCS, AddressingMode::relative(self), 2),
            0xD0 => (OpCode::BNE, AddressingMode::relative(self), 2),
            0xF0 => (OpCode::BEQ, AddressingMode::relative(self), 2),
            0x00 => (OpCode::BRK, AddressingMode::implied(self), 7),
            0xC9 => (OpCode::CMP, AddressingMode::immediate(self), 2),
            0xC5 => (OpCode::CMP, AddressingMode::zero_page(self), 3),
            0xD5 => (OpCode::CMP, AddressingMode::zero_page_x(self), 4),
            0xCD => (OpCode::CMP, AddressingMode::absolute(self), 4),
            0xDD => (OpCode::CMP, AddressingMode::absolute_x(self), 4),
            0xD9 => (OpCode::CMP, AddressingMode::absolute_y(self), 4),
            0xC1 => (OpCode::CMP, AddressingMode::indirect_x(self), 6),
            0xD1 => (OpCode::CMP, AddressingMode::indirect_y(self), 5),
            0xE0 => (OpCode::CPX, AddressingMode::immediate(self), 2),
            0xE4 => (OpCode::CPX, AddressingMode::zero_page(self), 3),
            0xEC => (OpCode::CPX, AddressingMode::absolute(self), 4),
            0xC0 => (OpCode::CPY, AddressingMode::immediate(self), 2),
            0xC4 => (OpCode::CPY, AddressingMode::zero_page(self), 3),
            0xCC => (OpCode::CPY, AddressingMode::absolute(self), 4),
            0xC6 => (OpCode::DEC, AddressingMode::zero_page(self), 5),
            0xD6 => (OpCode::DEC, AddressingMode::zero_page_x(self), 6),
            0xCE => (OpCode::DEC, AddressingMode::absolute(self), 6),
            0xDE => (OpCode::DEC, AddressingMode::absolute_x(self), 7),
            0x49 => (OpCode::EOR, AddressingMode::immediate(self), 2),
            0x45 => (OpCode::EOR, AddressingMode::zero_page(self), 3),
            0x55 => (OpCode::EOR, AddressingMode::zero_page_x(self), 4),
            0x4D => (OpCode::EOR, AddressingMode::absolute(self), 4),
            0x5D => (OpCode::EOR, AddressingMode::absolute_x(self), 4),
            0x59 => (OpCode::EOR, AddressingMode::absolute_y(self), 4),
            0x41 => (OpCode::EOR, AddressingMode::indirect_x(self), 6),
            0x51 => (OpCode::EOR, AddressingMode::indirect_y(self), 5),
            0x18 => (OpCode::CLC, AddressingMode::implied(self), 2),
            0x38 => (OpCode::SEC, AddressingMode::implied(self), 2),
            0x58 => (OpCode::CLI, AddressingMode::implied(self), 2),
            0x78 => (OpCode::SEI, AddressingMode::implied(self), 2),
            0xB8 => (OpCode::CLV, AddressingMode::implied(self), 2),
            0xD8 => (OpCode::CLD, AddressingMode::implied(self), 2),
            0xF8 => (OpCode::SED, AddressingMode::implied(self), 2),
            0xE6 => (OpCode::INC, AddressingMode::zero_page(self), 5),
            0xF6 => (OpCode::INC, AddressingMode::zero_page_x(self), 6),
            0xEE => (OpCode::INC, AddressingMode::absolute(self), 6),
            0xFE => (OpCode::INC, AddressingMode::absolute_x(self), 7),
            0x4C => (OpCode::JMP, AddressingMode::absolute(self), 3),
            0x6C => (OpCode::JMP, AddressingMode::indirect(self), 5),
            0x20 => (OpCode::JSR, AddressingMode::absolute(self), 6),
            0xA9 => (OpCode::LDA, AddressingMode::immediate(self), 2),
            0xA5 => (OpCode::LDA, AddressingMode::zero_page(self), 3),
            0xB5 => (OpCode::LDA, AddressingMode::zero_page_x(self), 4),
            0xAD => (OpCode::LDA, AddressingMode::absolute(self), 4),
            0xBD => (OpCode::LDA, AddressingMode::absolute_x(self), 4),
            0xB9 => (OpCode::LDA, AddressingMode::absolute_y(self), 4),
            0xA1 => (OpCode::LDA, AddressingMode::indirect_x(self), 6),
            0xB1 => (OpCode::LDA, AddressingMode::indirect_y(self), 5),
            0xA2 => (OpCode::LDX, AddressingMode::immediate(self), 2),
            0xA6 => (OpCode::LDX, AddressingMode::zero_page(self), 3),
            0xB6 => (OpCode::LDX, AddressingMode::zero_page_y(self), 4),
            0xAE => (OpCode::LDX, AddressingMode::absolute(self), 4),
            0xBE => (OpCode::LDX, AddressingMode::absolute_y(self), 4),
            0xA0 => (OpCode::LDY, AddressingMode::immediate(self), 2),
            0xA4 => (OpCode::LDY, AddressingMode::zero_page(self), 3),
            0xB4 => (OpCode::LDY, AddressingMode::zero_page_x(self), 4),
            0xAC => (OpCode::LDY, AddressingMode::absolute(self), 4),
            0xBC => (OpCode::LDY, AddressingMode::absolute_x(self), 4),
            0x4A => (OpCode::LSR, AddressingMode::accumulator(self), 2),
            0x46 => (OpCode::LSR, AddressingMode::zero_page(self), 5),
            0x56 => (OpCode::LSR, AddressingMode::zero_page_x(self), 6),
            0x4E => (OpCode::LSR, AddressingMode::absolute(self), 6),
            0x5E => (OpCode::LSR, AddressingMode::absolute_x(self), 7),
            0xEA => (OpCode::NOP, AddressingMode::implied(self), 2),
            0x09 => (OpCode::ORA, AddressingMode::immediate(self), 2),
            0x05 => (OpCode::ORA, AddressingMode::zero_page(self), 3),
            0x15 => (OpCode::ORA, AddressingMode::zero_page_x(self), 4),
            0x0D => (OpCode::ORA, AddressingMode::absolute(self), 4),
            0x1D => (OpCode::ORA, AddressingMode::absolute_x(self), 4),
            0x19 => (OpCode::ORA, AddressingMode::absolute_y(self), 4),
            0x01 => (OpCode::ORA, AddressingMode::indirect_x(self), 6),
            0x11 => (OpCode::ORA, AddressingMode::indirect_y(self), 5),
            0xAA => (OpCode::TAX, AddressingMode::implied(self), 2),
            0x8A => (OpCode::TXA, AddressingMode::implied(self), 2),
            0xCA => (OpCode::DEX, AddressingMode::implied(self), 2),
            0xE8 => (OpCode::INX, AddressingMode::implied(self), 2),
            0xA8 => (OpCode::TAY, AddressingMode::implied(self), 2),
            0x98 => (OpCode::TYA, AddressingMode::implied(self), 2),
            0x88 => (OpCode::DEY, AddressingMode::implied(self), 2),
            0xC8 => (OpCode::INY, AddressingMode::implied(self), 2),
            0x2A => (OpCode::ROL, AddressingMode::accumulator(self), 2),
            0x26 => (OpCode::ROL, AddressingMode::zero_page(self), 5),
            0x36 => (OpCode::ROL, AddressingMode::zero_page_x(self), 6),
            0x2E => (OpCode::ROL, AddressingMode::absolute(self), 6),
            0x3E => (OpCode::ROL, AddressingMode::absolute_x(self), 7),
            0x6A => (OpCode::ROR, AddressingMode::accumulator(self), 2),
            0x66 => (OpCode::ROR, AddressingMode::zero_page(self), 5),
            0x76 => (OpCode::ROR, AddressingMode::zero_page_x(self), 6),
            0x6E => (OpCode::ROR, AddressingMode::absolute(self), 6),
            0x7E => (OpCode::ROR, AddressingMode::absolute_x(self), 7),
            0x40 => (OpCode::RTI, AddressingMode::implied(self), 6),
            0x60 => (OpCode::RTS, AddressingMode::implied(self), 6),
            0xE9 => (OpCode::SBC, AddressingMode::immediate(self), 2),
            0xE5 => (OpCode::SBC, AddressingMode::zero_page(self), 3),
            0xF5 => (OpCode::SBC, AddressingMode::zero_page_x(self), 4),
            0xED => (OpCode::SBC, AddressingMode::absolute(self), 4),
            0xFD => (OpCode::SBC, AddressingMode::absolute_x(self), 4),
            0xF9 => (OpCode::SBC, AddressingMode::absolute_y(self), 4),
            0xE1 => (OpCode::SBC, AddressingMode::indirect_x(self), 6),
            0xF1 => (OpCode::SBC, AddressingMode::indirect_y(self), 5),
            0x85 => (OpCode::STA, AddressingMode::zero_page(self), 3),
            0x95 => (OpCode::STA, AddressingMode::zero_page_x(self), 4),
            0x8D => (OpCode::STA, AddressingMode::absolute(self), 4),
            0x9D => (OpCode::STA, AddressingMode::absolute_x(self), 5),
            0x99 => (OpCode::STA, AddressingMode::absolute_y(self), 5),
            0x81 => (OpCode::STA, AddressingMode::indirect_x(self), 6),
            0x91 => (OpCode::STA, AddressingMode::indirect_y(self), 6),
            0x9A => (OpCode::TXS, AddressingMode::implied(self), 2),
            0xBA => (OpCode::TSX, AddressingMode::implied(self), 2),
            0x48 => (OpCode::PHA, AddressingMode::implied(self), 3),
            0x68 => (OpCode::PLA, AddressingMode::implied(self), 4),
            0x08 => (OpCode::PHP, AddressingMode::implied(self), 3),
            0x28 => (OpCode::PLP, AddressingMode::implied(self), 4),
            0x86 => (OpCode::STX, AddressingMode::zero_page(self), 3),
            0x96 => (OpCode::STX, AddressingMode::zero_page_y(self), 4),
            0x8E => (OpCode::STX, AddressingMode::absolute(self), 4),
            0x84 => (OpCode::STY, AddressingMode::zero_page(self), 3),
            0x94 => (OpCode::STY, AddressingMode::zero_page_x(self), 4),
            0x8C => (OpCode::STY, AddressingMode::absolute(self), 4),
            _ => {
                return Err(CpuError::InvalidOpCode(opcode));
            },
        };
        let mode = match mode {
            Ok(m) => m,
            Err(e) => return Err(e),
        };
        Ok(Instruction { opcode, mode, cycles })
    }
}

} // verus!
