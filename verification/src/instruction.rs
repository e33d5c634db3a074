//! The instruction model: mnemonics, addressing modes, and the decoded form.

use vstd::prelude::*;

verus! {

/// One decoded instruction: mnemonic, addressing mode with its operand
/// payload, and the base cycle count before page-cross and branch penalties.
#[derive(Clone, Copy, PartialEq, Eq, Structural, Debug)]
pub struct Instruction {
    pub opcode: OpCode,
    pub mode: AddressingMode,
    pub cycles: u8,
}

/// An addressing mode together with the literal operand bytes that followed
/// the opcode (not the final effective address). One-byte payloads are kept
/// as the raw byte; two-byte payloads as the little-endian word.
#[derive(Clone, Copy, PartialEq, Eq, Structural, Debug)]
pub enum AddressingMode {
    Accumulator,
    Implied,
    Immediate(u8),
    Relative(u8),
    ZeroPage(u8),
    ZeroPageX(u8),
    ZeroPageY(u8),
    Absolute(u16),
    AbsoluteX(u16),
    AbsoluteY(u16),
    Indirect(u16),
    IndirectX(u8),
    IndirectY(u8),
}

/// An addressing mode stripped of its payload, as the decoder table names it.
#[derive(Clone, Copy, PartialEq, Eq, Structural, Debug)]
pub enum ModeKind {
    Accumulator,
    Implied,
    Immediate,
    Relative,
    ZeroPage,
    ZeroPageX,
    ZeroPageY,
    Absolute,
    AbsoluteX,
    AbsoluteY,
    Indirect,
    IndirectX,
    IndirectY,
}

impl AddressingMode {
    /// The payload-free kind of this mode.
    pub open spec fn kind(self) -> ModeKind {
        match self {
            AddressingMode::Accumulator => ModeKind::Accumulator,
            AddressingMode::Implied => ModeKind::Implied,
            AddressingMode::Immediate(_) => ModeKind::Immediate,
            AddressingMode::Relative(_) => ModeKind::Relative,
            AddressingMode::ZeroPage(_) => ModeKind::ZeroPage,
            AddressingMode::ZeroPageX(_) => ModeKind::ZeroPageX,
            AddressingMode::ZeroPageY(_) => ModeKind::ZeroPageY,
            AddressingMode::Absolute(_) => ModeKind::Absolute,
            AddressingMode::AbsoluteX(_) => ModeKind::AbsoluteX,
            AddressingMode::AbsoluteY(_) => ModeKind::AbsoluteY,
            AddressingMode::Indirect(_) => ModeKind::Indirect,
            AddressingMode::IndirectX(_) => ModeKind::IndirectX,
            AddressingMode::IndirectY(_) => ModeKind::IndirectY,
        }
    }
}

impl ModeKind {
    /// How many operand bytes the mode consumes after the opcode byte.
    pub open spec fn operand_bytes(self) -> u16 {
        match self {
            ModeKind::Accumulator => 0,
            ModeKind::Implied => 0,
            ModeKind::Immediate => 1,
            ModeKind::Relative => 1,
            ModeKind::ZeroPage => 1,
            ModeKind::ZeroPageX => 1,
            ModeKind::ZeroPageY => 1,
            ModeKind::Absolute => 2,
            ModeKind::AbsoluteX => 2,
            ModeKind::AbsoluteY => 2,
            ModeKind::Indirect => 2,
            ModeKind::IndirectX => 1,
            ModeKind::IndirectY => 1,
        }
    }
}

/// The 56 documented 6502 mnemonics.
#[allow(clippy::upper_case_acronyms)]
#[derive(Clone, Copy, PartialEq, Eq, Structural, Debug)]
pub enum OpCode {
    ADC,
    AND,
    ASL,
    BCC,
    BCS,
    BEQ,
    BIT,
    BMI,
    BNE,
    BPL,
    BRK,
    BVC,
    BVS,
    CLC,
    CLD,
    CLI,
    CLV,
    CMP,
    CPX,
    CPY,
    DEC,
    DEX,
    DEY,
    EOR,
    INC,
    INX,
    INY,
    JMP,
    JSR,
    LDA,
    LDX,
    LDY,
    LSR,
    NOP,
    ORA,
    PHA,
    PHP,
    PLA,
    PLP,
    ROL,
    ROR,
    RTI,
    RTS,
    SBC,
    SEC,
    SED,
    SEI,
    STA,
    STX,
    STY,
    TAX,
    TAY,
    TSX,
    TXA,
    TXS,
    TYA,
}


impl OpCode {
    /// The characters of this mnemonic's name.
    pub open spec fn spec_name(self) -> Seq<char> {
        match self {
            OpCode::ADC => "ADC"@,
            OpCode::AND => "AND"@,
            OpCode::ASL => "ASL"@,
            OpCode::BCC => "BCC"@,
            OpCode::BCS => "BCS"@,
            OpCode::BEQ => "BEQ"@,
            OpCode::BIT => "BIT"@,
            OpCode::BMI => "BMI"@,
            OpCode::BNE => "BNE"@,
            OpCode::BPL => "BPL"@,
            OpCode::BRK => "BRK"@,
            OpCode::BVC => "BVC"@,
            OpCode::BVS => "BVS"@,
            OpCode::CLC => "CLC"@,
            OpCode::CLD => "CLD"@,
            OpCode::CLI => "CLI"@,
            OpCode::CLV => "CLV"@,
            OpCode::CMP => "CMP"@,
            OpCode::CPX => "CPX"@,
            OpCode::CPY => "CPY"@,
            OpCode::DEC => "DEC"@,
            OpCode::DEX => "DEX"@,
            OpCode::DEY => "DEY"@,
            OpCode::EOR => "EOR"@,
            OpCode::INC => "INC"@,
            OpCode::INX => "INX"@,
            OpCode::INY => "INY"@,
            OpCode::JMP => "JMP"@,
            OpCode::JSR => "JSR"@,
            OpCode::LDA => "LDA"@,
            OpCode::LDX => "LDX"@,
            OpCode::LDY => "LDY"@,
            OpCode::LSR => "LSR"@,
            OpCode::NOP => "NOP"@,
            OpCode::ORA => "ORA"@,
            OpCode::PHA => "PHA"@,
            OpCode::PHP => "PHP"@,
            OpCode::PLA => "PLA"@,
            OpCode::PLP => "PLP"@,
            OpCode::ROL => "ROL"@,
            OpCode::ROR => "ROR"@,
            OpCode::RTI => "RTI"@,
            OpCode::RTS => "RTS"@,
            OpCode::SBC => "SBC"@,
            OpCode::SEC => "SEC"@,
            OpCode::SED => "SED"@,
            OpCode::SEI => "SEI"@,
            OpCode::STA => "STA"@,
            OpCode::STX => "STX"@,
            OpCode::STY => "STY"@,
            OpCode::TAX => "TAX"@,
            OpCode::TAY => "TAY"@,
            OpCode::TSX => "TSX"@,
            OpCode::TXA => "TXA"@,
            OpCode::TXS => "TXS"@,
            OpCode::TYA => "TYA"@,
        }
    }

    /// The mnemonic's name, as written in assembly listings.
    pub fn name(&self) -> (r: &'static str)
        ensures
            r@ == self.spec_name(),
    {
        match self {
            OpCode::ADC => "ADC",
            OpCode::AND => "AND",
            OpCode::ASL => "ASL",
            OpCode::BCC => "BCC",
            OpCode::BCS => "BCS",
            OpCode::BEQ => "BEQ",
            OpCode::BIT => "BIT",
            OpCode::BMI => "BMI",
            OpCode::BNE => "BNE",
            OpCode::BPL => "BPL",
            OpCode::BRK => "BRK",
            OpCode::BVC => "BVC",
            OpCode::BVS => "BVS",
            OpCode::CLC => "CLC",
            OpCode::CLD => "CLD",
            OpCode::CLI => "CLI",
            OpCode::CLV => "CLV",
            OpCode::CMP => "CMP",
            OpCode::CPX => "CPX",
            OpCode::CPY => "CPY",
            OpCode::DEC => "DEC",
            OpCode::DEX => "DEX",
            OpCode::DEY => "DEY",
            OpCode::EOR => "EOR",
            OpCode::INC => "INC",
            OpCode::INX => "INX",
            OpCode::INY => "INY",
            OpCode::JMP => "JMP",
            OpCode::JSR => "JSR",
            OpCode::LDA => "LDA",
            OpCode::LDX => "LDX",
            OpCode::LDY => "LDY",
            OpCode::LSR => "LSR",
            OpCode::NOP => "NOP",
            OpCode::ORA => "ORA",
            OpCode::PHA => "PHA",
            OpCode::PHP => "PHP",
            OpCode::PLA => "PLA",
            OpCode::PLP => "PLP",
            OpCode::ROL => "ROL",
            OpCode::ROR => "ROR",
            OpCode::RTI => "RTI",
            OpCode::RTS => "RTS",
            OpCode::SBC => "SBC",
            OpCode::SEC => "SEC",
            OpCode::SED => "SED",
            OpCode::SEI => "SEI",
            OpCode::STA => "STA",
            OpCode::STX => "STX",
            OpCode::STY => "STY",
            OpCode::TAX => "TAX",
            OpCode::TAY => "TAY",
            OpCode::TSX => "TSX",
            OpCode::TXA => "TXA",
            OpCode::TXS => "TXS",
            OpCode::TYA => "TYA",
        }
    }
}

} // verus!
