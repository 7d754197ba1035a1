//! The static opcode table: each opcode maps to an instruction tag, an
//! addressing mode, a base cycle count, and whether a page crossing during
//! address resolution costs one extra cycle.  Decoding an opcode absent from
//! the table is a fatal decode error, surfaced to the caller as `None`.

use vstd::prelude::*;

verus! {

/// The closed set of instruction tags: the documented mnemonics plus the
/// undocumented composites whose behaviour silicon accidents define.
#[derive(Clone, Copy, Debug, PartialEq, Eq, Structural)]
pub enum Instruction {
    ADC,
    AND,
    ASL,
    BIT,
    BCC,
    BCS,
    BEQ,
    BMI,
    BNE,
    BPL,
    BVC,
    BVS,
    BRK,
    CLC,
    CLD,
    CLI,
    CLV,
    CMP,
    CPX,
    CPY,
    DEC,
    DEX,
    DEY,
    EOR,
    INC,
    INX,
    INY,
    JMP,
    JSR,
    LDA,
    LDX,
    LDY,
    LSR,
    ORA,
    PHA,
    PHP,
    PLA,
    PLP,
    ROL,
    ROR,
    RTI,
    RTS,
    SBC,
    SEC,
    SED,
    SEI,
    STA,
    STX,
    STY,
    TAX,
    TAY,
    TSX,
    TXA,
    TXS,
    TYA,
    ALR,
    ANC,
    ARR,
    AXS,
    LAX,
    SAX,
    DCP,
    ISC,
    RLA,
    RRA,
    SLO,
    SRE,
    NOP,
    SKB,
    IGN,
}

/// The closed set of addressing modes.  Each resolves to a target address, a
/// page-cross flag and an instruction-length increment.
#[derive(Clone, Copy, Debug, PartialEq, Eq, Structural)]
pub enum AddressingMode {
    Immediate,
    ZeroPage,
    ZeroPageX,
    ZeroPageY,
    Absolute,
    AbsoluteX,
    AbsoluteY,
    IndexedIndirect,
    IndirectIndexed,
    Accumulator,
    Relative,
    Implied,
    Indirect,
}

/// One decoded table entry.
#[derive(Clone, Copy, Debug, PartialEq, Eq, Structural)]
pub struct Op {
    pub instruction: Instruction,
    pub mode: AddressingMode,
    /// Base cycle count charged when the instruction is issued.
    pub cycles: u8,
    /// Whether a page crossing during address resolution adds one cycle.
    pub increase_cycle_when_cross_page: bool,
}

/// The decode table as a mathematical function: `None` for an opcode the
/// silicon does not document and this core does not emulate.
pub open spec fn spec_get_op(opcode: u8) -> Option<Op> {
    match opcode {
        0x00 => Some(Op { instruction: Instruction::BRK, mode: AddressingMode::Implied, cycles: 7, increase_cycle_when_cross_page: false }),
        0x01 => Some(Op { instruction: Instruction::ORA, mode: AddressingMode::IndexedIndirect, cycles: 6, increase_cycle_when_cross_page: false }),
        0x03 => Some(Op { instruction: Instruction::SLO, mode: AddressingMode::IndexedIndirect, cycles: 8, increase_cycle_when_cross_page: false }),
        0x04 => Some(Op { instruction: Instruction::IGN, mode: AddressingMode::ZeroPage, cycles: 3, increase_cycle_when_cross_page: false }),
        0x05 => Some(Op { instruction: Instruction::ORA, mode: AddressingMode::ZeroPage, cycles: 3, increase_cycle_when_cross_page: false }),
        0x06 => Some(Op { instruction: Instruction::ASL, mode: AddressingMode::ZeroPage, cycles: 5, increase_cycle_when_cross_page: false }),
        0x07 => Some(Op { instruction: Instruction::SLO, mode: AddressingMode::ZeroPage, cycles: 5, increase_cycle_when_cross_page: false }),
        0x08 => Some(Op { instruction: Instruction::PHP, mode: AddressingMode::Implied, cycles: 3, increase_cycle_when_cross_page: false }),
        0x09 => Some(Op { instruction: Instruction::ORA, mode: AddressingMode::Immediate, cycles: 2, increase_cycle_when_cross_page: false }),
        0x0a => Some(Op { instruction: Instruction::ASL, mode: AddressingMode::Accumulator, cycles: 2, increase_cycle_when_cross_page: false }),
        0x0b => Some(Op { instruction: Instruction::ANC, mode: AddressingMode::Immediate, cycles: 2, increase_cycle_when_cross_page: false }),
        0x0c => Some(Op { instruction: Instruction::IGN, mode: AddressingMode::Absolute, cycles: 4, increase_cycle_when_cross_page: false }),
        0x0d => Some(Op { instruction: Instruction::ORA, mode: AddressingMode::Absolute, cycles: 4, increase_cycle_when_cross_page: false }),
        0x0e => Some(Op { instruction: Instruction::ASL, mode: AddressingMode::Absolute, cycles: 6, increase_cycle_when_cross_page: false }),
        0x0f => Some(Op { instruction: Instruction::SLO, mode: AddressingMode::Absolute, cycles: 6, increase_cycle_when_cross_page: false }),
        0x10 => Some(Op { instruction: Instruction::BPL, mode: AddressingMode::Relative, cycles: 2, increase_cycle_when_cross_page: true }),
        0x11 => Some(Op { instruction: Instruction::ORA, mode: AddressingMode::IndirectIndexed, cycles: 5, increase_cycle_when_cross_page: true }),
        0x13 => Some(Op { instruction: Instruction::SLO, mode: AddressingMode::IndirectIndexed, cycles: 8, increase_cycle_when_cross_page: false }),
        0x14 => Some(Op { instruction: Instruction::IGN, mode: AddressingMode::ZeroPageX, cycles: 4, increase_cycle_when_cross_page: false }),
        0x15 => Some(Op { instruction: Instruction::ORA, mode: AddressingMode::ZeroPageX, cycles: 4, increase_cycle_when_cross_page: false }),
        0x16 => Some(Op { instruction: Instruction::ASL, mode: AddressingMode::ZeroPageX, cycles: 6, increase_cycle_when_cross_page: false }),
        0x17 => Some(Op { instruction: Instruction::SLO, mode: AddressingMode::ZeroPageX, cycles: 6, increase_cycle_when_cross_page: false }),
        0x18 => Some(Op { instruction: Instruction::CLC, mode: AddressingMode::Implied, cycles: 2, increase_cycle_when_cross_page: false }),
        0x19 => Some(Op { instruction: Instruction::ORA, mode: AddressingMode::AbsoluteY, cycles: 4, increase_cycle_when_cross_page: true }),
        0x1a => Some(Op { instruction: Instruction::NOP, mode: AddressingMode::Implied, cycles: 2, increase_cycle_when_cross_page: false }),
        0x1b => Some(Op { instruction: Instruction::SLO, mode: AddressingMode::AbsoluteY, cycles: 7, increase_cycle_when_cross_page: false }),
        0x1c => Some(Op { instruction: Instruction::IGN, mode: AddressingMode::AbsoluteX, cycles: 4, increase_cycle_when_cross_page: true }),
        0x1d => Some(Op { instruction: Instruction::ORA, mode: AddressingMode::AbsoluteX, cycles: 4, increase_cycle_when_cross_page: true }),
        0x1e => Some(Op { instruction: Instruction::ASL, mode: AddressingMode::AbsoluteX, cycles: 7, increase_cycle_when_cross_page: false }),
        0x1f => Some(Op { instruction: Instruction::SLO, mode: AddressingMode::AbsoluteX, cycles: 7, increase_cycle_when_cross_page: false }),
        0x20 => Some(Op { instruction: Instruction::JSR, mode: AddressingMode::Absolute, cycles: 6, increase_cycle_when_cross_page: false }),
        0x21 => Some(Op { instruction: Instruction::AND, mode: AddressingMode::IndexedIndirect, cycles: 6, increase_cycle_when_cross_page: false }),
        0x23 => Some(Op { instruction: Instruction::RLA, mode: AddressingMode::IndexedIndirect, cycles: 8, increase_cycle_when_cross_page: false }),
        0x24 => Some(Op { instruction: Instruction::BIT, mode: AddressingMode::ZeroPage, cycles: 3, increase_cycle_when_cross_page: false }),
        0x25 => Some(Op { instruction: Instruction::AND, mode: AddressingMode::ZeroPage, cycles: 3, increase_cycle_when_cross_page: false }),
        0x26 => Some(Op { instruction: Instruction::ROL, mode: AddressingMode::ZeroPage, cycles: 5, increase_cycle_when_cross_page: false }),
        0x27 => Some(Op { instruction: Instruction::RLA, mode: AddressingMode::ZeroPage, cycles: 5, increase_cycle_when_cross_page: false }),
        0x28 => Some(Op { instruction: Instruction::PLP, mode: AddressingMode::Implied, cycles: 4, increase_cycle_when_cross_page: false }),
        0x29 => Some(Op { instruction: Instruction::AND, mode: AddressingMode::Immediate, cycles: 2, increase_cycle_when_cross_page: false }),
        0x2a => Some(Op { instruction: Instruction::ROL, mode: AddressingMode::Accumulator, cycles: 2, increase_cycle_when_cross_page: false }),
        0x2b => Some(Op { instruction: Instruction::ANC, mode: AddressingMode::Immediate, cycles: 2, increase_cycle_when_cross_page: false }),
        0x2c => Some(Op { instruction: Instruction::BIT, mode: AddressingMode::Absolute, cycles: 4, increase_cycle_when_cross_page: false }),
        0x2d => Some(Op { instruction: Instruction::AND, mode: AddressingMode::Absolute, cycles: 4, increase_cycle_when_cross_page: false }),
        0x2e => Some(Op { instruction: Instruction::ROL, mode: AddressingMode::Absolute, cycles: 6, increase_cycle_when_cross_page: false }),
        0x2f => Some(Op { instruction: Instruction::RLA, mode: AddressingMode::Absolute, cycles: 6, increase_cycle_when_cross_page: false }),
        0x30 => Some(Op { instruction: Instruction::BMI, mode: AddressingMode::Relative, cycles: 2, increase_cycle_when_cross_page: true }),
        0x31 => Some(Op { instruction: Instruction::AND, mode: AddressingMode::IndirectIndexed, cycles: 5, increase_cycle_when_cross_page: true }),
        0x33 => Some(Op { instruction: Instruction::RLA, mode: AddressingMode::IndirectIndexed, cycles: 8, increase_cycle_when_cross_page: false }),
        0x34 => Some(Op { instruction: Instruction::IGN, mode: AddressingMode::ZeroPageX, cycles: 4, increase_cycle_when_cross_page: false }),
        0x35 => Some(Op { instruction: Instruction::AND, mode: AddressingMode::ZeroPageX, cycles: 4, increase_cycle_when_cross_page: false }),
        0x36 => Some(Op { instruction: Instruction::ROL, mode: AddressingMode::ZeroPageX, cycles: 6, increase_cycle_when_cross_page: false }),
        0x37 => Some(Op { instruction: Instruction::RLA, mode: AddressingMode::ZeroPageX, cycles: 6, increase_cycle_when_cross_page: false }),
        0x38 => Some(Op { instruction: Instruction::SEC, mode: AddressingMode::Implied, cycles: 2, increase_cycle_when_cross_page: false }),
        0x39 => Some(Op { instruction: Instruction::AND, mode: AddressingMode::AbsoluteY, cycles: 4, increase_cycle_when_cross_page: true }),
        0x3a => Some(Op { instruction: Instruction::NOP, mode: AddressingMode::Implied, cycles: 2, increase_cycle_when_cross_page: false }),
        0x3b => Some(Op { instruction: Instruction::RLA, mode: AddressingMode::AbsoluteY, cycles: 7, increase_cycle_when_cross_page: false }),
        0x3c => Some(Op { instruction: Instruction::IGN, mode: AddressingMode::AbsoluteX, cycles: 4, increase_cycle_when_cross_page: true }),
        0x3d => Some(Op { instruction: Instruction::AND, mode: AddressingMode::AbsoluteX, cycles: 4, increase_cycle_when_cross_page: true }),
        0x3e => Some(Op { instruction: Instruction::ROL, mode: AddressingMode::AbsoluteX, cycles: 7, increase_cycle_when_cross_page: false }),
        0x3f => Some(Op { instruction: Instruction::RLA, mode: AddressingMode::AbsoluteX, cycles: 7, increase_cycle_when_cross_page: false }),
        0x40 => Some(Op { instruction: Instruction::RTI, mode: AddressingMode::Implied, cycles: 6, increase_cycle_when_cross_page: false }),
        0x41 => Some(Op { instruction: Instruction::EOR, mode: AddressingMode::IndexedIndirect, cycles: 6, increase_cycle_when_cross_page: false }),
        0x43 => Some(Op { instruction: Instruction::SRE, mode: AddressingMode::IndexedIndirect, cycles: 8, increase_cycle_when_cross_page: false }),
        0x44 => Some(Op { instruction: Instruction::IGN, mode: AddressingMode::ZeroPage, cycles: 3, increase_cycle_when_cross_page: false }),
        0x45 => Some(Op { instruction: Instruction::EOR, mode: AddressingMode::ZeroPage, cycles: 3, increase_cycle_when_cross_page: false }),
        0x46 => Some(Op { instruction: Instruction::LSR, mode: AddressingMode::ZeroPage, cycles: 5, increase_cycle_when_cross_page: false }),
        0x47 => Some(Op { instruction: Instruction::SRE, mode: AddressingMode::ZeroPage, cycles: 5, increase_cycle_when_cross_page: false }),
        0x48 => Some(Op { instruction: Instruction::PHA, mode: AddressingMode::Implied, cycles: 3, increase_cycle_when_cross_page: false }),
        0x49 => Some(Op { instruction: Instruction::EOR, mode: AddressingMode::Immediate, cycles: 2, increase_cycle_when_cross_page: false }),
        0x4a => Some(Op { instruction: Instruction::LSR, mode: AddressingMode::Accumulator, cycles: 2, increase_cycle_when_cross_page: false }),
        0x4b => Some(Op { instruction: Instruction::ALR, mode: AddressingMode::Immediate, cycles: 2, increase_cycle_when_cross_page: false }),
        0x4c => Some(Op { instruction: Instruction::JMP, mode: AddressingMode::Absolute, cycles: 3, increase_cycle_when_cross_page: false }),
        0x4d => Some(Op { instruction: Instruction::EOR, mode: AddressingMode::Absolute, cycles: 4, increase_cycle_when_cross_page: false }),
        0x4e => Some(Op { instruction: Instruction::LSR, mode: AddressingMode::Absolute, cycles: 6, increase_cycle_when_cross_page: false }),
        0x4f => Some(Op { instruction: Instruction::SRE, mode: AddressingMode::Absolute, cycles: 6, increase_cycle_when_cross_page: false }),
        0x50 => Some(Op { instruction: Instruction::BVC, mode: AddressingMode::Relative, cycles: 2, increase_cycle_when_cross_page: true }),
        0x51 => Some(Op { instruction: Instruction::EOR, mode: AddressingMode::IndirectIndexed, cycles: 5, increase_cycle_when_cross_page: true }),
        0x53 => Some(Op { instruction: Instruction::SRE, mode: AddressingMode::IndirectIndexed, cycles: 8, increase_cycle_when_cross_page: false }),
        0x54 => Some(Op { instruction: Instruction::IGN, mode: AddressingMode::ZeroPageX, cycles: 4, increase_cycle_when_cross_page: false }),
        0x55 => Some(Op { instruction: Instruction::EOR, mode: AddressingMode::ZeroPageX, cycles: 4, increase_cycle_when_cross_page: false }),
        0x56 => Some(Op { instruction: Instruction::LSR, mode: AddressingMode::ZeroPageX, cycles: 6, increase_cycle_when_cross_page: false }),
        0x57 => Some(Op { instruction: Instruction::SRE, mode: AddressingMode::ZeroPageX, cycles: 6, increase_cycle_when_cross_page: false }),
        0x58 => Some(Op { instruction: Instruction::CLI, mode: AddressingMode::Implied, cycles: 2, increase_cycle_when_cross_page: false }),
        0x59 => Some(Op { instruction: Instruction::EOR, mode: AddressingMode::AbsoluteY, cycles: 4, increase_cycle_when_cross_page: true }),
        0x5a => Some(Op { instruction: Instruction::NOP, mode: AddressingMode::Implied, cycles: 2, increase_cycle_when_cross_page: false }),
        0x5b => Some(Op { instruction: Instruction::SRE, mode: AddressingMode::AbsoluteY, cycles: 7, increase_cycle_when_cross_page: false }),
        0x5c => Some(Op { instruction: Instruction::IGN, mode: AddressingMode::AbsoluteX, cycles: 4, increase_cycle_when_cross_page: true }),
        0x5d => Some(Op { instruction: Instruction::EOR, mode: AddressingMode::AbsoluteX, cycles: 4, increase_cycle_when_cross_page: true }),
        0x5e => Some(Op { instruction: Instruction::LSR, mode: AddressingMode::AbsoluteX, cycles: 7, increase_cycle_when_cross_page: false }),
        0x5f => Some(Op { instruction: Instruction::SRE, mode: AddressingMode::AbsoluteX, cycles: 7, increase_cycle_when_cross_page: false }),
        0x60 => Some(Op { instruction: Instruction::RTS, mode: AddressingMode::Implied, cycles: 6, increase_cycle_when_cross_page: false }),
        0x61 => Some(Op { instruction: Instruction::ADC, mode: AddressingMode::IndexedIndirect, cycles: 6, increase_cycle_when_cross_page: false }),
        0x63 => Some(Op { instruction: Instruction::RRA, mode: AddressingMode::IndexedIndirect, cycles: 8, increase_cycle_when_cross_page: false }),
        0x64 => Some(Op { instruction: Instruction::IGN, mode: AddressingMode::ZeroPage, cycles: 3, increase_cycle_when_cross_page: false }),
        0x65 => Some(Op { instruction: Instruction::ADC, mode: AddressingMode::ZeroPage, cycles: 3, increase_cycle_when_cross_page: false }),
        0x66 => Some(Op { instruction: Instruction::ROR, mode: AddressingMode::ZeroPage, cycles: 5, increase_cycle_when_cross_page: false }),
        0x67 => Some(Op { instruction: Instruction::RRA, mode: AddressingMode::ZeroPage, cycles: 5, increase_cycle_when_cross_page: false }),
        0x68 => Some(Op { instruction: Instruction::PLA, mode: AddressingMode::Implied, cycles: 4, increase_cycle_when_cross_page: false }),
        0x69 => Some(Op { instruction: Instruction::ADC, mode: AddressingMode::Immediate, cycles: 2, increase_cycle_when_cross_page: false }),
        0x6a => Some(Op { instruction: Instruction::ROR, mode: AddressingMode::Accumulator, cycles: 2, increase_cycle_when_cross_page: false }),
        0x6b => Some(Op { instruction: Instruction::ARR, mode: AddressingMode::Immediate, cycles: 2, increase_cycle_when_cross_page: false }),
        0x6c => Some(Op { instruction: Instruction::JMP, mode: AddressingMode::Indirect, cycles: 5, increase_cycle_when_cross_page: false }),
        0x6d => Some(Op { instruction: Instruction::ADC, mode: AddressingMode::Absolute, cycles: 4, increase_cycle_when_cross_page: false }),
        0x6e => Some(Op { instruction: Instruction::ROR, mode: AddressingMode::Absolute, cycles: 6, increase_cycle_when_cross_page: false }),
        0x6f => Some(Op { instruction: Instruction::RRA, mode: AddressingMode::Absolute, cycles: 6, increase_cycle_when_cross_page: false }),
        0x70 => Some(Op { instruction: Instruction::BVS, mode: AddressingMode::Relative, cycles: 2, increase_cycle_when_cross_page: true }),
        0x71 => Some(Op { instruction: Instruction::ADC, mode: AddressingMode::IndirectIndexed, cycles: 5, increase_cycle_when_cross_page: true }),
        0x73 => Some(Op { instruction: Instruction::RRA, mode: AddressingMode::IndirectIndexed, cycles: 8, increase_cycle_when_cross_page: false }),
        0x74 => Some(Op { instruction: Instruction::IGN, mode: AddressingMode::ZeroPageX, cycles: 4, increase_cycle_when_cross_page: false }),
        0x75 => Some(Op { instruction: Instruction::ADC, mode: AddressingMode::ZeroPageX, cycles: 4, increase_cycle_when_cross_page: false }),
        0x76 => Some(Op { instruction: Instruction::ROR, mode: AddressingMode::ZeroPageX, cycles: 6, increase_cycle_when_cross_page: false }),
        0x77 => Some(Op { instruction: Instruction::RRA, mode: AddressingMode::ZeroPageX, cycles: 6, increase_cycle_when_cross_page: false }),
        0x78 => Some(Op { instruction: Instruction::SEI, mode: AddressingMode::Implied, cycles: 2, increase_cycle_when_cross_page: false }),
        0x79 => Some(Op { instruction: Instruction::ADC, mode: AddressingMode::AbsoluteY, cycles: 4, increase_cycle_when_cross_page: true }),
        0x7a => Some(Op { instruction: Instruction::NOP, mode: AddressingMode::Implied, cycles: 2, increase_cycle_when_cross_page: false }),
        0x7b => Some(Op { instruction: Instruction::RRA, mode: AddressingMode::AbsoluteY, cycles: 7, increase_cycle_when_cross_page: false }),
        0x7c => Some(Op { instruction: Instruction::IGN, mode: AddressingMode::AbsoluteX, cycles: 4, increase_cycle_when_cross_page: true }),
        0x7d => Some(Op { instruction: Instruction::ADC, mode: AddressingMode::AbsoluteX, cycles: 4, increase_cycle_when_cross_page: true }),
        0x7e => Some(Op { instruction: Instruction::ROR, mode: AddressingMode::AbsoluteX, cycles: 7, increase_cycle_when_cross_page: false }),
        0x7f => Some(Op { instruction: Instruction::RRA, mode: AddressingMode::AbsoluteX, cycles: 7, increase_cycle_when_cross_page: false }),
        0x80 => Some(Op { instruction: Instruction::SKB, mode: AddressingMode::Immediate, cycles: 2, increase_cycle_when_cross_page: false }),
        0x81 => Some(Op { instruction: Instruction::STA, mode: AddressingMode::IndexedIndirect, cycles: 6, increase_cycle_when_cross_page: false }),
        0x82 => Some(Op { instruction: Instruction::SKB, mode: AddressingMode::Immediate, cycles: 2, increase_cycle_when_cross_page: false }),
        0x83 => Some(Op { instruction: Instruction::SAX, mode: AddressingMode::IndexedIndirect, cycles: 6, increase_cycle_when_cross_page: true }),
        0x84 => Some(Op { instruction: Instruction::STY, mode: AddressingMode::ZeroPage, cycles: 3, increase_cycle_when_cross_page: false }),
        0x85 => Some(Op { instruction: Instruction::STA, mode: AddressingMode::ZeroPage, cycles: 3, increase_cycle_when_cross_page: false }),
        0x86 => Some(Op { instruction: Instruction::STX, mode: AddressingMode::ZeroPage, cycles: 3, increase_cycle_when_cross_page: false }),
        0x87 => Some(Op { instruction: Instruction::SAX, mode: AddressingMode::ZeroPage, cycles: 3, increase_cycle_when_cross_page: false }),
        0x88 => Some(Op { instruction: Instruction::DEY, mode: AddressingMode::Implied, cycles: 2, increase_cycle_when_cross_page: false }),
        0x89 => Some(Op { instruction: Instruction::SKB, mode: AddressingMode::Immediate, cycles: 2, increase_cycle_when_cross_page: false }),
        0x8a => Some(Op { instruction: Instruction::TXA, mode: AddressingMode::Implied, cycles: 2, increase_cycle_when_cross_page: false }),
        0x8c => Some(Op { instruction: Instruction::STY, mode: AddressingMode::Absolute, cycles: 4, increase_cycle_when_cross_page: false }),
        0x8d => Some(Op { instruction: Instruction::STA, mode: AddressingMode::Absolute, cycles: 4, increase_cycle_when_cross_page: false }),
        0x8e => Some(Op { instruction: Instruction::STX, mode: AddressingMode::Absolute, cycles: 4, increase_cycle_when_cross_page: false }),
        0x8f => Some(Op { instruction: Instruction::SAX, mode: AddressingMode::Absolute, cycles: 4, increase_cycle_when_cross_page: false }),
        0x90 => Some(Op { instruction: Instruction::BCC, mode: AddressingMode::Relative, cycles: 2, increase_cycle_when_cross_page: true }),
        0x91 => Some(Op { instruction: Instruction::STA, mode: AddressingMode::IndirectIndexed, cycles: 6, increase_cycle_when_cross_page: false }),
        0x94 => Some(Op { instruction: Instruction::STY, mode: AddressingMode::ZeroPageX, cycles: 4, increase_cycle_when_cross_page: false }),
        0x95 => Some(Op { instruction: Instruction::STA, mode: AddressingMode::ZeroPageX, cycles: 4, increase_cycle_when_cross_page: false }),
        0x96 => Some(Op { instruction: Instruction::STX, mode: AddressingMode::ZeroPageY, cycles: 4, increase_cycle_when_cross_page: false }),
        0x97 => Some(Op { instruction: Instruction::SAX, mode: AddressingMode::ZeroPageY, cycles: 4, increase_cycle_when_cross_page: false }),
        0x98 => Some(Op { instruction: Instruction::TYA, mode: AddressingMode::Implied, cycles: 2, increase_cycle_when_cross_page: false }),
        0x99 => Some(Op { instruction: Instruction::STA, mode: AddressingMode::AbsoluteY, cycles: 5, increase_cycle_when_cross_page: false }),
        0x9a => Some(Op { instruction: Instruction::TXS, mode: AddressingMode::Implied, cycles: 2, increase_cycle_when_cross_page: false }),
        0x9d => Some(Op { instruction: Instruction::STA, mode: AddressingMode::AbsoluteX, cycles: 5, increase_cycle_when_cross_page: false }),
        0xa0 => Some(Op { instruction: Instruction::LDY, mode: AddressingMode::Immediate, cycles: 2, increase_cycle_when_cross_page: false }),
        0xa1 => Some(Op { instruction: Instruction::LDA, mode: AddressingMode::IndexedIndirect, cycles: 6, increase_cycle_when_cross_page: false }),
        0xa2 => Some(Op { instruction: Instruction::LDX, mode: AddressingMode::Immediate, cycles: 2, increase_cycle_when_cross_page: false }),
        0xa3 => Some(Op { instruction: Instruction::LAX, mode: AddressingMode::IndexedIndirect, cycles: 6, increase_cycle_when_cross_page: false }),
        0xa4 => Some(Op { instruction: Instruction::LDY, mode: AddressingMode::ZeroPage, cycles: 3, increase_cycle_when_cross_page: false }),
        0xa5 => Some(Op { instruction: Instruction::LDA, mode: AddressingMode::ZeroPage, cycles: 3, increase_cycle_when_cross_page: false }),
        0xa6 => Some(Op { instruction: Instruction::LDX, mode: AddressingMode::ZeroPage, cycles: 3, increase_cycle_when_cross_page: false }),
        0xa7 => Some(Op { instruction: Instruction::LAX, mode: AddressingMode::ZeroPage, cycles: 3, increase_cycle_when_cross_page: false }),
        0xa8 => Some(Op { instruction: Instruction::TAY, mode: AddressingMode::Implied, cycles: 2, increase_cycle_when_cross_page: false }),
        0xa9 => Some(Op { instruction: Instruction::LDA, mode: AddressingMode::Immediate, cycles: 2, increase_cycle_when_cross_page: false }),
        0xaa => Some(Op { instruction: Instruction::TAX, mode: AddressingMode::Implied, cycles: 2, increase_cycle_when_cross_page: false }),
        0xac => Some(Op { instruction: Instruction::LDY, mode: AddressingMode::Absolute, cycles: 4, increase_cycle_when_cross_page: false }),
        0xad => Some(Op { instruction: Instruction::LDA, mode: AddressingMode::Absolute, cycles: 4, increase_cycle_when_cross_page: false }),
        0xae => Some(Op { instruction: Instruction::LDX, mode: AddressingMode::Absolute, cycles: 4, increase_cycle_when_cross_page: false }),
        0xaf => Some(Op { instruction: Instruction::LAX, mode: AddressingMode::Absolute, cycles: 4, increase_cycle_when_cross_page: false }),
        0xb0 => Some(Op { instruction: Instruction::BCS, mode: AddressingMode::Relative, cycles: 2, increase_cycle_when_cross_page: true }),
        0xb1 => Some(Op { instruction: Instruction::LDA, mode: AddressingMode::IndirectIndexed, cycles: 5, increase_cycle_when_cross_page: true }),
        0xb3 => Some(Op { instruction: Instruction::LAX, mode: AddressingMode::IndirectIndexed, cycles: 5, increase_cycle_when_cross_page: true }),
        0xb4 => Some(Op { instruction: Instruction::LDY, mode: AddressingMode::ZeroPageX, cycles: 4, increase_cycle_when_cross_page: false }),
        0xb5 => Some(Op { instruction: Instruction::LDA, mode: AddressingMode::ZeroPageX, cycles: 4, increase_cycle_when_cross_page: false }),
        0xb6 => Some(Op { instruction: Instruction::LDX, mode: AddressingMode::ZeroPageY, cycles: 4, increase_cycle_when_cross_page: false }),
        0xb7 => Some(Op { instruction: Instruction::LAX, mode: AddressingMode::ZeroPageY, cycles: 4, increase_cycle_when_cross_page: false }),
        0xb8 => Some(Op { instruction: Instruction::CLV, mode: AddressingMode::Implied, cycles: 2, increase_cycle_when_cross_page: false }),
        0xb9 => Some(Op { instruction: Instruction::LDA, mode: AddressingMode::AbsoluteY, cycles: 4, increase_cycle_when_cross_page: true }),
        0xba => Some(Op { instruction: Instruction::TSX, mode: AddressingMode::Implied, cycles: 2, increase_cycle_when_cross_page: false }),
        0xbc => Some(Op { instruction: Instruction::LDY, mode: AddressingMode::AbsoluteX, cycles: 4, increase_cycle_when_cross_page: true }),
        0xbd => Some(Op { instruction: Instruction::LDA, mode: AddressingMode::AbsoluteX, cycles: 4, increase_cycle_when_cross_page: true }),
        0xbe => Some(Op { instruction: Instruction::LDX, mode: AddressingMode::AbsoluteY, cycles: 4, increase_cycle_when_cross_page: true }),
        0xbf => Some(Op { instruction: Instruction::LAX, mode: AddressingMode::AbsoluteY, cycles: 4, increase_cycle_when_cross_page: true }),
        0xc0 => Some(Op { instruction: Instruction::CPY, mode: AddressingMode::Immediate, cycles: 2, increase_cycle_when_cross_page: false }),
        0xc1 => Some(Op { instruction: Instruction::CMP, mode: AddressingMode::IndexedIndirect, cycles: 6, increase_cycle_when_cross_page: true }),
        0xc2 => Some(Op { instruction: Instruction::SKB, mode: AddressingMode::Immediate, cycles: 2, increase_cycle_when_cross_page: false }),
        0xc3 => Some(Op { instruction: Instruction::DCP, mode: AddressingMode::IndexedIndirect, cycles: 8, increase_cycle_when_cross_page: false }),
        0xc4 => Some(Op { instruction: Instruction::CPY, mode: AddressingMode::ZeroPage, cycles: 3, increase_cycle_when_cross_page: false }),
        0xc5 => Some(Op { instruction: Instruction::CMP, mode: AddressingMode::ZeroPage, cycles: 3, increase_cycle_when_cross_page: false }),
        0xc6 => Some(Op { instruction: Instruction::DEC, mode: AddressingMode::ZeroPage, cycles: 5, increase_cycle_when_cross_page: false }),
        0xc7 => Some(Op { instruction: Instruction::DCP, mode: AddressingMode::ZeroPage, cycles: 5, increase_cycle_when_cross_page: false }),
        0xc8 => Some(Op { instruction: Instruction::INY, mode: AddressingMode::Implied, cycles: 2, increase_cycle_when_cross_page: false }),
        0xc9 => Some(Op { instruction: Instruction::CMP, mode: AddressingMode::Immediate, cycles: 2, increase_cycle_when_cross_page: false }),
        0xca => Some(Op { instruction: Instruction::DEX, mode: AddressingMode::Implied, cycles: 2, increase_cycle_when_cross_page: false }),
        0xcb => Some(Op { instruction: Instruction::AXS, mode: AddressingMode::Immediate, cycles: 2, increase_cycle_when_cross_page: false }),
        0xcc => Some(Op { instruction: Instruction::CPY, mode: AddressingMode::Absolute, cycles: 4, increase_cycle_when_cross_page: false }),
        0xcd => Some(Op { instruction: Instruction::CMP, mode: AddressingMode::Absolute, cycles: 4, increase_cycle_when_cross_page: false }),
        0xce => Some(Op { instruction: Instruction::DEC, mode: AddressingMode::Absolute, cycles: 6, increase_cycle_when_cross_page: false }),
        0xcf => Some(Op { instruction: Instruction::DCP, mode: AddressingMode::Absolute, cycles: 6, increase_cycle_when_cross_page: false }),
        0xd0 => Some(Op { instruction: Instruction::BNE, mode: AddressingMode::Relative, cycles: 2, increase_cycle_when_cross_page: true }),
        0xd1 => Some(Op { instruction: Instruction::CMP, mode: AddressingMode::IndirectIndexed, cycles: 5, increase_cycle_when_cross_page: true }),
        0xd3 => Some(Op { instruction: Instruction::DCP, mode: AddressingMode::IndirectIndexed, cycles: 8, increase_cycle_when_cross_page: false }),
        0xd4 => Some(Op { instruction: Instruction::IGN, mode: AddressingMode::ZeroPageX, cycles: 4, increase_cycle_when_cross_page: false }),
        0xd5 => Some(Op { instruction: Instruction::CMP, mode: AddressingMode::ZeroPageX, cycles: 4, increase_cycle_when_cross_page: false }),
        0xd6 => Some(Op { instruction: Instruction::DEC, mode: AddressingMode::ZeroPageX, cycles: 6, increase_cycle_when_cross_page: false }),
        0xd7 => Some(Op { instruction: Instruction::DCP, mode: AddressingMode::ZeroPageX, cycles: 6, increase_cycle_when_cross_page: false }),
        0xd8 => Some(Op { instruction: Instruction::CLD, mode: AddressingMode::Implied, cycles: 2, increase_cycle_when_cross_page: false }),
        0xd9 => Some(Op { instruction: Instruction::CMP, mode: AddressingMode::AbsoluteY, cycles: 4, increase_cycle_when_cross_page: true }),
        0xda => Some(Op { instruction: Instruction::NOP, mode: AddressingMode::Implied, cycles: 2, increase_cycle_when_cross_page: false }),
        0xdb => Some(Op { instruction: Instruction::DCP, mode: AddressingMode::AbsoluteY, cycles: 7, increase_cycle_when_cross_page: false }),
        0xdc => Some(Op { instruction: Instruction::IGN, mode: AddressingMode::AbsoluteX, cycles: 4, increase_cycle_when_cross_page: true }),
        0xdd => Some(Op { instruction: Instruction::CMP, mode: AddressingMode::AbsoluteX, cycles: 4, increase_cycle_when_cross_page: true }),
        0xde => Some(Op { instruction: Instruction::DEC, mode: AddressingMode::AbsoluteX, cycles: 7, increase_cycle_when_cross_page: false }),
        0xdf => Some(Op { instruction: Instruction::DCP, mode: AddressingMode::AbsoluteX, cycles: 7, increase_cycle_when_cross_page: false }),
        0xe0 => Some(Op { instruction: Instruction::CPX, mode: AddressingMode::Immediate, cycles: 2, increase_cycle_when_cross_page: false }),
        0xe1 => Some(Op { instruction: Instruction::SBC, mode: AddressingMode::IndexedIndirect, cycles: 6, increase_cycle_when_cross_page: false }),
        0xe2 => Some(Op { instruction: Instruction::SKB, mode: AddressingMode::Immediate, cycles: 2, increase_cycle_when_cross_page: false }),
        0xe3 => Some(Op { instruction: Instruction::ISC, mode: AddressingMode::IndexedIndirect, cycles: 8, increase_cycle_when_cross_page: false }),
        0xe4 => Some(Op { instruction: Instruction::CPX, mode: AddressingMode::ZeroPage, cycles: 3, increase_cycle_when_cross_page: false }),
        0xe5 => Some(Op { instruction: Instruction::SBC, mode: AddressingMode::ZeroPage, cycles: 3, increase_cycle_when_cross_page: false }),
        0xe6 => Some(Op { instruction: Instruction::INC, mode: AddressingMode::ZeroPage, cycles: 5, increase_cycle_when_cross_page: false }),
        0xe7 => Some(Op { instruction: Instruction::ISC, mode: AddressingMode::ZeroPage, cycles: 5, increase_cycle_when_cross_page: false }),
        0xe8 => Some(Op { instruction: Instruction::INX, mode: AddressingMode::Implied, cycles: 2, increase_cycle_when_cross_page: false }),
        0xe9 => Some(Op { instruction: Instruction::SBC, mode: AddressingMode::Immediate, cycles: 2, increase_cycle_when_cross_page: false }),
        0xea => Some(Op { instruction: Instruction::NOP, mode: AddressingMode::Implied, cycles: 2, increase_cycle_when_cross_page: false }),
        0xeb => Some(Op { instruction: Instruction::SBC, mode: AddressingMode::Immediate, cycles: 2, increase_cycle_when_cross_page: false }),
        0xec => Some(Op { instruction: Instruction::CPX, mode: AddressingMode::Absolute, cycles: 4, increase_cycle_when_cross_page: false }),
        0xed => Some(Op { instruction: Instruction::SBC, mode: AddressingMode::Absolute, cycles: 4, increase_cycle_when_cross_page: false }),
        0xee => Some(Op { instruction: Instruction::INC, mode: AddressingMode::Absolute, cycles: 6, increase_cycle_when_cross_page: false }),
        0xef => Some(Op { instruction: Instruction::ISC, mode: AddressingMode::Absolute, cycles: 6, increase_cycle_when_cross_page: false }),
        0xf0 => Some(Op { instruction: Instruction::BEQ, mode: AddressingMode::Relative, cycles: 2, increase_cycle_when_cross_page: true }),
        0xf1 => Some(Op { instruction: Instruction::SBC, mode: AddressingMode::IndirectIndexed, cycles: 5, increase_cycle_when_cross_page: true }),
        0xf3 => Some(Op { instruction: Instruction::ISC, mode: AddressingMode::IndirectIndexed, cycles: 8, increase_cycle_when_cross_page: false }),
        0xf4 => Some(Op { instruction: Instruction::IGN, mode: AddressingMode::ZeroPageX, cycles: 4, increase_cycle_when_cross_page: false }),
        0xf5 => Some(Op { instruction: Instruction::SBC, mode: AddressingMode::ZeroPageX, cycles: 4, increase_cycle_when_cross_page: false }),
        0xf6 => Some(Op { instruction: Instruction::INC, mode: AddressingMode::ZeroPageX, cycles: 6, increase_cycle_when_cross_page: false }),
        0xf7 => Some(Op { instruction: Instruction::ISC, mode: AddressingMode::ZeroPageX, cycles: 6, increase_cycle_when_cross_page: false }),
        0xf8 => Some(Op { instruction: Instruction::SED, mode: AddressingMode::Implied, cycles: 2, increase_cycle_when_cross_page: false }),
        0xf9 => Some(Op { instruction: Instruction::SBC, mode: AddressingMode::AbsoluteY, cycles: 4, increase_cycle_when_cross_page: true }),
        0xfa => Some(Op { instruction: Instruction::NOP, mode: AddressingMode::Implied, cycles: 2, increase_cycle_when_cross_page: false }),
        0xfb => Some(Op { instruction: Instruction::ISC, mode: AddressingMode::AbsoluteY, cycles: 7, increase_cycle_when_cross_page: false }),
        0xfc => Some(Op { instruction: Instruction::IGN, mode: AddressingMode::AbsoluteX, cycles: 4, increase_cycle_when_cross_page: true }),
        0xfd => Some(Op { instruction: Instruction::SBC, mode: AddressingMode::AbsoluteX, cycles: 4, increase_cycle_when_cross_page: true }),
        0xfe => Some(Op { instruction: Instruction::INC, mode: AddressingMode::AbsoluteX, cycles: 7, increase_cycle_when_cross_page: false }),
        0xff => Some(Op { instruction: Instruction::ISC, mode: AddressingMode::AbsoluteX, cycles: 7, increase_cycle_when_cross_page: false }),
        _ => None,
    }
}

/// Looks an opcode up in the static table.
pub fn get_op(opcode: u8) -> (r: Option<Op>)
    ensures
        r == spec_get_op(opcode),
{
    match opcode {
        0x00 => Some(Op { instruction: Instruction::BRK, mode: AddressingMode::Implied, cycles: 7, increase_cycle_when_cross_page: false }),
        0x01 => Some(Op { instruction: Instruction::ORA, mode: AddressingMode::IndexedIndirect, cycles: 6, increase_cycle_when_cross_page: false }),
        0x03 => Some(Op { instruction: Instruction::SLO, mode: AddressingMode::IndexedIndirect, cycles: 8, increase_cycle_when_cross_page: false }),
        0x04 => Some(Op { instruction: Instruction::IGN, mode: AddressingMode::ZeroPage, cycles: 3, increase_cycle_when_cross_page: false }),
        0x05 => Some(Op { instruction: Instruction::ORA, mode: AddressingMode::ZeroPage, cycles: 3, increase_cycle_when_cross_page: false }),
        0x06 => Some(Op { instruction: Instruction::ASL, mode: AddressingMode::ZeroPage, cycles: 5, increase_cycle_when_cross_page: false }),
        0x07 => Some(Op { instruction: Instruction::SLO, mode: AddressingMode::ZeroPage, cycles: 5, increase_cycle_when_cross_page: false }),
        0x08 => Some(Op { instruction: Instruction::PHP, mode: AddressingMode::Implied, cycles: 3, increase_cycle_when_cross_page: false }),
        0x09 => Some(Op { instruction: Instruction::ORA, mode: AddressingMode::Immediate, cycles: 2, increase_cycle_when_cross_page: false }),
        0x0a => Some(Op { instruction: Instruction::ASL, mode: AddressingMode::Accumulator, cycles: 2, increase_cycle_when_cross_page: false }),
        0x0b => Some(Op { instruction: Instruction::ANC, mode: AddressingMode::Immediate, cycles: 2, increase_cycle_when_cross_page: false }),
        0x0c => Some(Op { instruction: Instruction::IGN, mode: AddressingMode::Absolute, cycles: 4, increase_cycle_when_cross_page: false }),
        0x0d => Some(Op { instruction: Instruction::ORA, mode: AddressingMode::Absolute, cycles: 4, increase_cycle_when_cross_page: false }),
        0x0e => Some(Op { instruction: Instruction::ASL, mode: AddressingMode::Absolute, cycles: 6, increase_cycle_when_cross_page: false }),
        0x0f => Some(Op { instruction: Instruction::SLO, mode: AddressingMode::Absolute, cycles: 6, increase_cycle_when_cross_page: false }),
        0x10 => Some(Op { instruction: Instruction::BPL, mode: AddressingMode::Relative, cycles: 2, increase_cycle_when_cross_page: true }),
        0x11 => Some(Op { instruction: Instruction::ORA, mode: AddressingMode::IndirectIndexed, cycles: 5, increase_cycle_when_cross_page: true }),
        0x13 => Some(Op { instruction: Instruction::SLO, mode: AddressingMode::IndirectIndexed, cycles: 8, increase_cycle_when_cross_page: false }),
        0x14 => Some(Op { instruction: Instruction::IGN, mode: AddressingMode::ZeroPageX, cycles: 4, increase_cycle_when_cross_page: false }),
        0x15 => Some(Op { instruction: Instruction::ORA, mode: AddressingMode::ZeroPageX, cycles: 4, increase_cycle_when_cross_page: false }),
        0x16 => Some(Op { instruction: Instruction::ASL, mode: AddressingMode::ZeroPageX, cycles: 6, increase_cycle_when_cross_page: false }),
        0x17 => Some(Op { instruction: Instruction::SLO, mode: AddressingMode::ZeroPageX, cycles: 6, increase_cycle_when_cross_page: false }),
        0x18 => Some(Op { instruction: Instruction::CLC, mode: AddressingMode::Implied, cycles: 2, increase_cycle_when_cross_page: false }),
        0x19 => Some(Op { instruction: Instruction::ORA, mode: AddressingMode::AbsoluteY, cycles: 4, increase_cycle_when_cross_page: true }),
        0x1a => Some(Op { instruction: Instruction::NOP, mode: AddressingMode::Implied, cycles: 2, increase_cycle_when_cross_page: false }),
        0x1b => Some(Op { instruction: Instruction::SLO, mode: AddressingMode::AbsoluteY, cycles: 7, increase_cycle_when_cross_page: false }),
        0x1c => Some(Op { instruction: Instruction::IGN, mode: AddressingMode::AbsoluteX, cycles: 4, increase_cycle_when_cross_page: true }),
        0x1d => Some(Op { instruction: Instruction::ORA, mode: AddressingMode::AbsoluteX, cycles: 4, increase_cycle_when_cross_page: true }),
        0x1e => Some(Op { instruction: Instruction::ASL, mode: AddressingMode::AbsoluteX, cycles: 7, increase_cycle_when_cross_page: false }),
        0x1f => Some(Op { instruction: Instruction::SLO, mode: AddressingMode::AbsoluteX, cycles: 7, increase_cycle_when_cross_page: false }),
        0x20 => Some(Op { instruction: Instruction::JSR, mode: AddressingMode::Absolute, cycles: 6, increase_cycle_when_cross_page: false }),
        0x21 => Some(Op { instruction: Instruction::AND, mode: AddressingMode::IndexedIndirect, cycles: 6, increase_cycle_when_cross_page: false }),
        0x23 => Some(Op { instruction: Instruction::RLA, mode: AddressingMode::IndexedIndirect, cycles: 8, increase_cycle_when_cross_page: false }),
        0x24 => Some(Op { instruction: Instruction::BIT, mode: AddressingMode::ZeroPage, cycles: 3, increase_cycle_when_cross_page: false }),
        0x25 => Some(Op { instruction: Instruction::AND, mode: AddressingMode::ZeroPage, cycles: 3, increase_cycle_when_cross_page: false }),
        0x26 => Some(Op { instruction: Instruction::ROL, mode: AddressingMode::ZeroPage, cycles: 5, increase_cycle_when_cross_page: false }),
        0x27 => Some(Op { instruction: Instruction::RLA, mode: AddressingMode::ZeroPage, cycles: 5, increase_cycle_when_cross_page: false }),
        0x28 => Some(Op { instruction: Instruction::PLP, mode: AddressingMode::Implied, cycles: 4, increase_cycle_when_cross_page: false }),
        0x29 => Some(Op { instruction: Instruction::AND, mode: AddressingMode::Immediate, cycles: 2, increase_cycle_when_cross_page: false }),
        0x2a => Some(Op { instruction: Instruction::ROL, mode: AddressingMode::Accumulator, cycles: 2, increase_cycle_when_cross_page: false }),
        0x2b => Some(Op { instruction: Instruction::ANC, mode: AddressingMode::Immediate, cycles: 2, increase_cycle_when_cross_page: false }),
        0x2c => Some(Op { instruction: Instruction::BIT, mode: AddressingMode::Absolute, cycles: 4, increase_cycle_when_cross_page: false }),
        0x2d => Some(Op { instruction: Instruction::AND, mode: AddressingMode::Absolute, cycles: 4, increase_cycle_when_cross_page: false }),
        0x2e => Some(Op { instruction: Instruction::ROL, mode: AddressingMode::Absolute, cycles: 6, increase_cycle_when_cross_page: false }),
        0x2f => Some(Op { instruction: Instruction::RLA, mode: AddressingMode::Absolute, cycles: 6, increase_cycle_when_cross_page: false }),
        0x30 => Some(Op { instruction: Instruction::BMI, mode: AddressingMode::Relative, cycles: 2, increase_cycle_when_cross_page: true }),
        0x31 => Some(Op { instruction: Instruction::AND, mode: AddressingMode::IndirectIndexed, cycles: 5, increase_cycle_when_cross_page: true }),
        0x33 => Some(Op { instruction: Instruction::RLA, mode: AddressingMode::IndirectIndexed, cycles: 8, increase_cycle_when_cross_page: false }),
        0x34 => Some(Op { instruction: Instruction::IGN, mode: AddressingMode::ZeroPageX, cycles: 4, increase_cycle_when_cross_page: false }),
        0x35 => Some(Op { instruction: Instruction::AND, mode: AddressingMode::ZeroPageX, cycles: 4, increase_cycle_when_cross_page: false }),
        0x36 => Some(Op { instruction: Instruction::ROL, mode: AddressingMode::ZeroPageX, cycles: 6, increase_cycle_when_cross_page: false }),
        0x37 => Some(Op { instruction: Instruction::RLA, mode: AddressingMode::ZeroPageX, cycles: 6, increase_cycle_when_cross_page: false }),
        0x38 => Some(Op { instruction: Instruction::SEC, mode: AddressingMode::Implied, cycles: 2, increase_cycle_when_cross_page: false }),
        0x39 => Some(Op { instruction: Instruction::AND, mode: AddressingMode::AbsoluteY, cycles: 4, increase_cycle_when_cross_page: true }),
        0x3a => Some(Op { instruction: Instruction::NOP, mode: AddressingMode::Implied, cycles: 2, increase_cycle_when_cross_page: false }),
        0x3b => Some(Op { instruction: Instruction::RLA, mode: AddressingMode::AbsoluteY, cycles: 7, increase_cycle_when_cross_page: false }),
        0x3c => Some(Op { instruction: Instruction::IGN, mode: AddressingMode::AbsoluteX, cycles: 4, increase_cycle_when_cross_page: true }),
        0x3d => Some(Op { instruction: Instruction::AND, mode: AddressingMode::AbsoluteX, cycles: 4, increase_cycle_when_cross_page: true }),
        0x3e => Some(Op { instruction: Instruction::ROL, mode: AddressingMode::AbsoluteX, cycles: 7, increase_cycle_when_cross_page: false }),
        0x3f => Some(Op { instruction: Instruction::RLA, mode: AddressingMode::AbsoluteX, cycles: 7, increase_cycle_when_cross_page: false }),
        0x40 => Some(Op { instruction: Instruction::RTI, mode: AddressingMode::Implied, cycles: 6, increase_cycle_when_cross_page: false }),
        0x41 => Some(Op { instruction: Instruction::EOR, mode: AddressingMode::IndexedIndirect, cycles: 6, increase_cycle_when_cross_page: false }),
        0x43 => Some(Op { instruction: Instruction::SRE, mode: AddressingMode::IndexedIndirect, cycles: 8, increase_cycle_when_cross_page: false }),
        0x44 => Some(Op { instruction: Instruction::IGN, mode: AddressingMode::ZeroPage, cycles: 3, increase_cycle_when_cross_page: false }),
        0x45 => Some(Op { instruction: Instruction::EOR, mode: AddressingMode::ZeroPage, cycles: 3, increase_cycle_when_cross_page: false }),
        0x46 => Some(Op { instruction: Instruction::LSR, mode: AddressingMode::ZeroPage, cycles: 5, increase_cycle_when_cross_page: false }),
        0x47 => Some(Op { instruction: Instruction::SRE, mode: AddressingMode::ZeroPage, cycles: 5, increase_cycle_when_cross_page: false }),
        0x48 => Some(Op { instruction: Instruction::PHA, mode: AddressingMode::Implied, cycles: 3, increase_cycle_when_cross_page: false }),
        0x49 => Some(Op { instruction: Instruction::EOR, mode: AddressingMode::Immediate, cycles: 2, increase_cycle_when_cross_page: false }),
        0x4a => Some(Op { instruction: Instruction::LSR, mode: AddressingMode::Accumulator, cycles: 2, increase_cycle_when_cross_page: false }),
        0x4b => Some(Op { instruction: Instruction::ALR, mode: AddressingMode::Immediate, cycles: 2, increase_cycle_when_cross_page: false }),
        0x4c => Some(Op { instruction: Instruction::JMP, mode: AddressingMode::Absolute, cycles: 3, increase_cycle_when_cross_page: false }),
        0x4d => Some(Op { instruction: Instruction::EOR, mode: AddressingMode::Absolute, cycles: 4, increase_cycle_when_cross_page: false }),
        0x4e => Some(Op { instruction: Instruction::LSR, mode: AddressingMode::Absolute, cycles: 6, increase_cycle_when_cross_page: false }),
        0x4f => Some(Op { instruction: Instruction::SRE, mode: AddressingMode::Absolute, cycles: 6, increase_cycle_when_cross_page: false }),
        0x50 => Some(Op { instruction: Instruction::BVC, mode: AddressingMode::Relative, cycles: 2, increase_cycle_when_cross_page: true }),
        0x51 => Some(Op { instruction: Instruction::EOR, mode: AddressingMode::IndirectIndexed, cycles: 5, increase_cycle_when_cross_page: true }),
        0x53 => Some(Op { instruction: Instruction::SRE, mode: AddressingMode::IndirectIndexed, cycles: 8, increase_cycle_when_cross_page: false }),
        0x54 => Some(Op { instruction: Instruction::IGN, mode: AddressingMode::ZeroPageX, cycles: 4, increase_cycle_when_cross_page: false }),
        0x55 => Some(Op { instruction: Instruction::EOR, mode: AddressingMode::ZeroPageX, cycles: 4, increase_cycle_when_cross_page: false }),
        0x56 => Some(Op { instruction: Instruction::LSR, mode: AddressingMode::ZeroPageX, cycles: 6, increase_cycle_when_cross_page: false }),
        0x57 => Some(Op { instruction: Instruction::SRE, mode: AddressingMode::ZeroPageX, cycles: 6, increase_cycle_when_cross_page: false }),
        0x58 => Some(Op { instruction: Instruction::CLI, mode: AddressingMode::Implied, cycles: 2, increase_cycle_when_cross_page: false }),
        0x59 => Some(Op { instruction: Instruction::EOR, mode: AddressingMode::AbsoluteY, cycles: 4, increase_cycle_when_cross_page: true }),
        0x5a => Some(Op { instruction: Instruction::NOP, mode: AddressingMode::Implied, cycles: 2, increase_cycle_when_cross_page: false }),
        0x5b => Some(Op { instruction: Instruction::SRE, mode: AddressingMode::AbsoluteY, cycles: 7, increase_cycle_when_cross_page: false }),
        0x5c => Some(Op { instruction: Instruction::IGN, mode: AddressingMode::AbsoluteX, cycles: 4, increase_cycle_when_cross_page: true }),
        0x5d => Some(Op { instruction: Instruction::EOR, mode: AddressingMode::AbsoluteX, cycles: 4, increase_cycle_when_cross_page: true }),
        0x5e => Some(Op { instruction: Instruction::LSR, mode: AddressingMode::AbsoluteX, cycles: 7, increase_cycle_when_cross_page: false }),
        0x5f => Some(Op { instruction: Instruction::SRE, mode: AddressingMode::AbsoluteX, cycles: 7, increase_cycle_when_cross_page: false }),
        0x60 => Some(Op { instruction: Instruction::RTS, mode: AddressingMode::Implied, cycles: 6, increase_cycle_when_cross_page: false }),
        0x61 => Some(Op { instruction: Instruction::ADC, mode: AddressingMode::IndexedIndirect, cycles: 6, increase_cycle_when_cross_page: false }),
        0x63 => Some(Op { instruction: Instruction::RRA, mode: AddressingMode::IndexedIndirect, cycles: 8, increase_cycle_when_cross_page: false }),
        0x64 => Some(Op { instruction: Instruction::IGN, mode: AddressingMode::ZeroPage, cycles: 3, increase_cycle_when_cross_page: false }),
        0x65 => Some(Op { instruction: Instruction::ADC, mode: AddressingMode::ZeroPage, cycles: 3, increase_cycle_when_cross_page: false }),
        0x66 => Some(Op { instruction: Instruction::ROR, mode: AddressingMode::ZeroPage, cycles: 5, increase_cycle_when_cross_page: false }),
        0x67 => Some(Op { instruction: Instruction::RRA, mode: AddressingMode::ZeroPage, cycles: 5, increase_cycle_when_cross_page: false }),
        0x68 => Some(Op { instruction: Instruction::PLA, mode: AddressingMode::Implied, cycles: 4, increase_cycle_when_cross_page: false }),
        0x69 => Some(Op { instruction: Instruction::ADC, mode: AddressingMode::Immediate, cycles: 2, increase_cycle_when_cross_page: false }),
        0x6a => Some(Op { instruction: Instruction::ROR, mode: AddressingMode::Accumulator, cycles: 2, increase_cycle_when_cross_page: false }),
        0x6b => Some(Op { instruction: Instruction::ARR, mode: AddressingMode::Immediate, cycles: 2, increase_cycle_when_cross_page: false }),
        0x6c => Some(Op { instruction: Instruction::JMP, mode: AddressingMode::Indirect, cycles: 5, increase_cycle_when_cross_page: false }),
        0x6d => Some(Op { instruction: Instruction::ADC, mode: AddressingMode::Absolute, cycles: 4, increase_cycle_when_cross_page: false }),
        0x6e => Some(Op { instruction: Instruction::ROR, mode: AddressingMode::Absolute, cycles: 6, increase_cycle_when_cross_page: false }),
        0x6f => Some(Op { instruction: Instruction::RRA, mode: AddressingMode::Absolute, cycles: 6, increase_cycle_when_cross_page: false }),
        0x70 => Some(Op { instruction: Instruction::BVS, mode: AddressingMode::Relative, cycles: 2, increase_cycle_when_cross_page: true }),
        0x71 => Some(Op { instruction: Instruction::ADC, mode: AddressingMode::IndirectIndexed, cycles: 5, increase_cycle_when_cross_page: true }),
        0x73 => Some(Op { instruction: Instruction::RRA, mode: AddressingMode::IndirectIndexed, cycles: 8, increase_cycle_when_cross_page: false }),
        0x74 => Some(Op { instruction: Instruction::IGN, mode: AddressingMode::ZeroPageX, cycles: 4, increase_cycle_when_cross_page: false }),
        0x75 => Some(Op { instruction: Instruction::ADC, mode: AddressingMode::ZeroPageX, cycles: 4, increase_cycle_when_cross_page: false }),
        0x76 => Some(Op { instruction: Instruction::ROR, mode: AddressingMode::ZeroPageX, cycles: 6, increase_cycle_when_cross_page: false }),
        0x77 => Some(Op { instruction: Instruction::RRA, mode: AddressingMode::ZeroPageX, cycles: 6, increase_cycle_when_cross_page: false }),
        0x78 => Some(Op { instruction: Instruction::SEI, mode: AddressingMode::Implied, cycles: 2, increase_cycle_when_cross_page: false }),
        0x79 => Some(Op { instruction: Instruction::ADC, mode: AddressingMode::AbsoluteY, cycles: 4, increase_cycle_when_cross_page: true }),
        0x7a => Some(Op { instruction: Instruction::NOP, mode: AddressingMode::Implied, cycles: 2, increase_cycle_when_cross_page: false }),
        0x7b => Some(Op { instruction: Instruction::RRA, mode: AddressingMode::AbsoluteY, cycles: 7, increase_cycle_when_cross_page: false }),
        0x7c => Some(Op { instruction: Instruction::IGN, mode: AddressingMode::AbsoluteX, cycles: 4, increase_cycle_when_cross_page: true }),
        0x7d => Some(Op { instruction: Instruction::ADC, mode: AddressingMode::AbsoluteX, cycles: 4, increase_cycle_when_cross_page: true }),
        0x7e => Some(Op { instruction: Instruction::ROR, mode: AddressingMode::AbsoluteX, cycles: 7, increase_cycle_when_cross_page: false }),
        0x7f => Some(Op { instruction: Instruction::RRA, mode: AddressingMode::AbsoluteX, cycles: 7, increase_cycle_when_cross_page: false }),
        0x80 => Some(Op { instruction: Instruction::SKB, mode: AddressingMode::Immediate, cycles: 2, increase_cycle_when_cross_page: false }),
        0x81 => Some(Op { instruction: Instruction::STA, mode: AddressingMode::IndexedIndirect, cycles: 6, increase_cycle_when_cross_page: false }),
        0x82 => Some(Op { instruction: Instruction::SKB, mode: AddressingMode::Immediate, cycles: 2, increase_cycle_when_cross_page: false }),
        0x83 => Some(Op { instruction: Instruction::SAX, mode: AddressingMode::IndexedIndirect, cycles: 6, increase_cycle_when_cross_page: true }),
        0x84 => Some(Op { instruction: Instruction::STY, mode: AddressingMode::ZeroPage, cycles: 3, increase_cycle_when_cross_page: false }),
        0x85 => Some(Op { instruction: Instruction::STA, mode: AddressingMode::ZeroPage, cycles: 3, increase_cycle_when_cross_page: false }),
        0x86 => Some(Op { instruction: Instruction::STX, mode: AddressingMode::ZeroPage, cycles: 3, increase_cycle_when_cross_page: false }),
        0x87 => Some(Op { instruction: Instruction::SAX, mode: AddressingMode::ZeroPage, cycles: 3, increase_cycle_when_cross_page: false }),
        0x88 => Some(Op { instruction: Instruction::DEY, mode: AddressingMode::Implied, cycles: 2, increase_cycle_when_cross_page: false }),
        0x89 => Some(Op { instruction: Instruction::SKB, mode: AddressingMode::Immediate, cycles: 2, increase_cycle_when_cross_page: false }),
        0x8a => Some(Op { instruction: Instruction::TXA, mode: AddressingMode::Implied, cycles: 2, increase_cycle_when_cross_page: false }),
        0x8c => Some(Op { instruction: Instruction::STY, mode: AddressingMode::Absolute, cycles: 4, increase_cycle_when_cross_page: false }),
        0x8d => Some(Op { instruction: Instruction::STA, mode: AddressingMode::Absolute, cycles: 4, increase_cycle_when_cross_page: false }),
        0x8e => Some(Op { instruction: Instruction::STX, mode: AddressingMode::Absolute, cycles: 4, increase_cycle_when_cross_page: false }),
        0x8f => Some(Op { instruction: Instruction::SAX, mode: AddressingMode::Absolute, cycles: 4, increase_cycle_when_cross_page: false }),
        0x90 => Some(Op { instruction: Instruction::BCC, mode: AddressingMode::Relative, cycles: 2, increase_cycle_when_cross_page: true }),
        0x91 => Some(Op { instruction: Instruction::STA, mode: AddressingMode::IndirectIndexed, cycles: 6, increase_cycle_when_cross_page: false }),
        0x94 => Some(Op { instruction: Instruction::STY, mode: AddressingMode::ZeroPageX, cycles: 4, increase_cycle_when_cross_page: false }),
        0x95 => Some(Op { instruction: Instruction::STA, mode: AddressingMode::ZeroPageX, cycles: 4, increase_cycle_when_cross_page: false }),
        0x96 => Some(Op { instruction: Instruction::STX, mode: AddressingMode::ZeroPageY, cycles: 4, increase_cycle_when_cross_page: false }),
        0x97 => Some(Op { instruction: Instruction::SAX, mode: AddressingMode::ZeroPageY, cycles: 4, increase_cycle_when_cross_page: false }),
        0x98 => Some(Op { instruction: Instruction::TYA, mode: AddressingMode::Implied, cycles: 2, increase_cycle_when_cross_page: false }),
        0x99 => Some(Op { instruction: Instruction::STA, mode: AddressingMode::AbsoluteY, cycles: 5, increase_cycle_when_cross_page: false }),
        0x9a => Some(Op { instruction: Instruction::TXS, mode: AddressingMode::Implied, cycles: 2, increase_cycle_when_cross_page: false }),
        0x9d => Some(Op { instruction: Instruction::STA, mode: AddressingMode::AbsoluteX, cycles: 5, increase_cycle_when_cross_page: false }),
        0xa0 => Some(Op { instruction: Instruction::LDY, mode: AddressingMode::Immediate, cycles: 2, increase_cycle_when_cross_page: false }),
        0xa1 => Some(Op { instruction: Instruction::LDA, mode: AddressingMode::IndexedIndirect, cycles: 6, increase_cycle_when_cross_page: false }),
        0xa2 => Some(Op { instruction: Instruction::LDX, mode: AddressingMode::Immediate, cycles: 2, increase_cycle_when_cross_page: false }),
        0xa3 => Some(Op { instruction: Instruction::LAX, mode: AddressingMode::IndexedIndirect, cycles: 6, increase_cycle_when_cross_page: false }),
        0xa4 => Some(Op { instruction: Instruction::LDY, mode: AddressingMode::ZeroPage, cycles: 3, increase_cycle_when_cross_page: false }),
        0xa5 => Some(Op { instruction: Instruction::LDA, mode: AddressingMode::ZeroPage, cycles: 3, increase_cycle_when_cross_page: false }),
        0xa6 => Some(Op { instruction: Instruction::LDX, mode: AddressingMode::ZeroPage, cycles: 3, increase_cycle_when_cross_page: false }),
        0xa7 => Some(Op { instruction: Instruction::LAX, mode: AddressingMode::ZeroPage, cycles: 3, increase_cycle_when_cross_page: false }),
        0xa8 => Some(Op { instruction: Instruction::TAY, mode: AddressingMode::Implied, cycles: 2, increase_cycle_when_cross_page: false }),
        0xa9 => Some(Op { instruction: Instruction::LDA, mode: AddressingMode::Immediate, cycles: 2, increase_cycle_when_cross_page: false }),
        0xaa => Some(Op { instruction: Instruction::TAX, mode: AddressingMode::Implied, cycles: 2, increase_cycle_when_cross_page: false }),
        0xac => Some(Op { instruction: Instruction::LDY, mode: AddressingMode::Absolute, cycles: 4, increase_cycle_when_cross_page: false }),
        0xad => Some(Op { instruction: Instruction::LDA, mode: AddressingMode::Absolute, cycles: 4, increase_cycle_when_cross_page: false }),
        0xae => Some(Op { instruction: Instruction::LDX, mode: AddressingMode::Absolute, cycles: 4, increase_cycle_when_cross_page: false }),
        0xaf => Some(Op { instruction: Instruction::LAX, mode: AddressingMode::Absolute, cycles: 4, increase_cycle_when_cross_page: false }),
        0xb0 => Some(Op { instruction: Instruction::BCS, mode: AddressingMode::Relative, cycles: 2, increase_cycle_when_cross_page: true }),
        0xb1 => Some(Op { instruction: Instruction::LDA, mode: AddressingMode::IndirectIndexed, cycles: 5, increase_cycle_when_cross_page: true }),
        0xb3 => Some(Op { instruction: Instruction::LAX, mode: AddressingMode::IndirectIndexed, cycles: 5, increase_cycle_when_cross_page: true }),
        0xb4 => Some(Op { instruction: Instruction::LDY, mode: AddressingMode::ZeroPageX, cycles: 4, increase_cycle_when_cross_page: false }),
        0xb5 => Some(Op { instruction: Instruction::LDA, mode: AddressingMode::ZeroPageX, cycles: 4, increase_cycle_when_cross_page: false }),
        0xb6 => Some(Op { instruction: Instruction::LDX, mode: AddressingMode::ZeroPageY, cycles: 4, increase_cycle_when_cross_page: false }),
        0xb7 => Some(Op { instruction: Instruction::LAX, mode: AddressingMode::ZeroPageY, cycles: 4, increase_cycle_when_cross_page: false }),
        0xb8 => Some(Op { instruction: Instruction::CLV, mode: AddressingMode::Implied, cycles: 2, increase_cycle_when_cross_page: false }),
        0xb9 => Some(Op { instruction: Instruction::LDA, mode: AddressingMode::AbsoluteY, cycles: 4, increase_cycle_when_cross_page: true }),
        0xba => Some(Op { instruction: Instruction::TSX, mode: AddressingMode::Implied, cycles: 2, increase_cycle_when_cross_page: false }),
        0xbc => Some(Op { instruction: Instruction::LDY, mode: AddressingMode::AbsoluteX, cycles: 4, increase_cycle_when_cross_page: true }),
        0xbd => Some(Op { instruction: Instruction::LDA, mode: AddressingMode::AbsoluteX, cycles: 4, increase_cycle_when_cross_page: true }),
        0xbe => Some(Op { instruction: Instruction::LDX, mode: AddressingMode::AbsoluteY, cycles: 4, increase_cycle_when_cross_page: true }),
        0xbf => Some(Op { instruction: Instruction::LAX, mode: AddressingMode::AbsoluteY, cycles: 4, increase_cycle_when_cross_page: true }),
        0xc0 => Some(Op { instruction: Instruction::CPY, mode: AddressingMode::Immediate, cycles: 2, increase_cycle_when_cross_page: false }),
        0xc1 => Some(Op { instruction: Instruction::CMP, mode: AddressingMode::IndexedIndirect, cycles: 6, increase_cycle_when_cross_page: true }),
        0xc2 => Some(Op { instruction: Instruction::SKB, mode: AddressingMode::Immediate, cycles: 2, increase_cycle_when_cross_page: false }),
        0xc3 => Some(Op { instruction: Instruction::DCP, mode: AddressingMode::IndexedIndirect, cycles: 8, increase_cycle_when_cross_page: false }),
        0xc4 => Some(Op { instruction: Instruction::CPY, mode: AddressingMode::ZeroPage, cycles: 3, increase_cycle_when_cross_page: false }),
        0xc5 => Some(Op { instruction: Instruction::CMP, mode: AddressingMode::ZeroPage, cycles: 3, increase_cycle_when_cross_page: false }),
        0xc6 => Some(Op { instruction: Instruction::DEC, mode: AddressingMode::ZeroPage, cycles: 5, increase_cycle_when_cross_page: false }),
        0xc7 => Some(Op { instruction: Instruction::DCP, mode: AddressingMode::ZeroPage, cycles: 5, increase_cycle_when_cross_page: false }),
        0xc8 => Some(Op { instruction: Instruction::INY, mode: AddressingMode::Implied, cycles: 2, increase_cycle_when_cross_page: false }),
        0xc9 => Some(Op { instruction: Instruction::CMP, mode: AddressingMode::Immediate, cycles: 2, increase_cycle_when_cross_page: false }),
        0xca => Some(Op { instruction: Instruction::DEX, mode: AddressingMode::Implied, cycles: 2, increase_cycle_when_cross_page: false }),
        0xcb => Some(Op { instruction: Instruction::AXS, mode: AddressingMode::Immediate, cycles: 2, increase_cycle_when_cross_page: false }),
        0xcc => Some(Op { instruction: Instruction::CPY, mode: AddressingMode::Absolute, cycles: 4, increase_cycle_when_cross_page: false }),
        0xcd => Some(Op { instruction: Instruction::CMP, mode: AddressingMode::Absolute, cycles: 4, increase_cycle_when_cross_page: false }),
        0xce => Some(Op { instruction: Instruction::DEC, mode: AddressingMode::Absolute, cycles: 6, increase_cycle_when_cross_page: false }),
        0xcf => Some(Op { instruction: Instruction::DCP, mode: AddressingMode::Absolute, cycles: 6, increase_cycle_when_cross_page: false }),
        0xd0 => Some(Op { instruction: Instruction::BNE, mode: AddressingMode::Relative, cycles: 2, increase_cycle_when_cross_page: true }),
        0xd1 => Some(Op { instruction: Instruction::CMP, mode: AddressingMode::IndirectIndexed, cycles: 5, increase_cycle_when_cross_page: true }),
        0xd3 => Some(Op { instruction: Instruction::DCP, mode: AddressingMode::IndirectIndexed, cycles: 8, increase_cycle_when_cross_page: false }),
        0xd4 => Some(Op { instruction: Instruction::IGN, mode: AddressingMode::ZeroPageX, cycles: 4, increase_cycle_when_cross_page: false }),
        0xd5 => Some(Op { instruction: Instruction::CMP, mode: AddressingMode::ZeroPageX, cycles: 4, increase_cycle_when_cross_page: false }),
        0xd6 => Some(Op { instruction: Instruction::DEC, mode: AddressingMode::ZeroPageX, cycles: 6, increase_cycle_when_cross_page: false }),
        0xd7 => Some(Op { instruction: Instruction::DCP, mode: AddressingMode::ZeroPageX, cycles: 6, increase_cycle_when_cross_page: false }),
        0xd8 => Some(Op { instruction: Instruction::CLD, mode: AddressingMode::Implied, cycles: 2, increase_cycle_when_cross_page: false }),
        0xd9 => Some(Op { instruction: Instruction::CMP, mode: AddressingMode::AbsoluteY, cycles: 4, increase_cycle_when_cross_page: true }),
        0xda => Some(Op { instruction: Instruction::NOP, mode: AddressingMode::Implied, cycles: 2, increase_cycle_when_cross_page: false }),
        0xdb => Some(Op { instruction: Instruction::DCP, mode: AddressingMode::AbsoluteY, cycles: 7, increase_cycle_when_cross_page: false }),
        0xdc => Some(Op { instruction: Instruction::IGN, mode: AddressingMode::AbsoluteX, cycles: 4, increase_cycle_when_cross_page: true }),
        0xdd => Some(Op { instruction: Instruction::CMP, mode: AddressingMode::AbsoluteX, cycles: 4, increase_cycle_when_cross_page: true }),
        0xde => Some(Op { instruction: Instruction::DEC, mode: AddressingMode::AbsoluteX, cycles: 7, increase_cycle_when_cross_page: false }),
        0xdf => Some(Op { instruction: Instruction::DCP, mode: AddressingMode::AbsoluteX, cycles: 7, increase_cycle_when_cross_page: false }),
        0xe0 => Some(Op { instruction: Instruction::CPX, mode: AddressingMode::Immediate, cycles: 2, increase_cycle_when_cross_page: false }),
        0xe1 => Some(Op { instruction: Instruction::SBC, mode: AddressingMode::IndexedIndirect, cycles: 6, increase_cycle_when_cross_page: false }),
        0xe2 => Some(Op { instruction: Instruction::SKB, mode: AddressingMode::Immediate, cycles: 2, increase_cycle_when_cross_page: false }),
        0xe3 => Some(Op { instruction: Instruction::ISC, mode: AddressingMode::IndexedIndirect, cycles: 8, increase_cycle_when_cross_page: false }),
        0xe4 => Some(Op { instruction: Instruction::CPX, mode: AddressingMode::ZeroPage, cycles: 3, increase_cycle_when_cross_page: false }),
        0xe5 => Some(Op { instruction: Instruction::SBC, mode: AddressingMode::ZeroPage, cycles: 3, increase_cycle_when_cross_page: false }),
        0xe6 => Some(Op { instruction: Instruction::INC, mode: AddressingMode::ZeroPage, cycles: 5, increase_cycle_when_cross_page: false }),
        0xe7 => Some(Op { instruction: Instruction::ISC, mode: AddressingMode::ZeroPage, cycles: 5, increase_cycle_when_cross_page: false }),
        0xe8 => Some(Op { instruction: Instruction::INX, mode: AddressingMode::Implied, cycles: 2, increase_cycle_when_cross_page: false }),
        0xe9 => Some(Op { instruction: Instruction::SBC, mode: AddressingMode::Immediate, cycles: 2, increase_cycle_when_cross_page: false }),
        0xea => Some(Op { instruction: Instruction::NOP, mode: AddressingMode::Implied, cycles: 2, increase_cycle_when_cross_page: false }),
        0xeb => Some(Op { instruction: Instruction::SBC, mode: AddressingMode::Immediate, cycles: 2, increase_cycle_when_cross_page: false }),
        0xec => Some(Op { instruction: Instruction::CPX, mode: AddressingMode::Absolute, cycles: 4, increase_cycle_when_cross_page: false }),
        0xed => Some(Op { instruction: Instruction::SBC, mode: AddressingMode::Absolute, cycles: 4, increase_cycle_when_cross_page: false }),
        0xee => Some(Op { instruction: Instruction::INC, mode: AddressingMode::Absolute, cycles: 6, increase_cycle_when_cross_page: false }),
        0xef => Some(Op { instruction: Instruction::ISC, mode: AddressingMode::Absolute, cycles: 6, increase_cycle_when_cross_page: false }),
        0xf0 => Some(Op { instruction: Instruction::BEQ, mode: AddressingMode::Relative, cycles: 2, increase_cycle_when_cross_page: true }),
        0xf1 => Some(Op { instruction: Instruction::SBC, mode: AddressingMode::IndirectIndexed, cycles: 5, increase_cycle_when_cross_page: true }),
        0xf3 => Some(Op { instruction: Instruction::ISC, mode: AddressingMode::IndirectIndexed, cycles: 8, increase_cycle_when_cross_page: false }),
        0xf4 => Some(Op { instruction: Instruction::IGN, mode: AddressingMode::ZeroPageX, cycles: 4, increase_cycle_when_cross_page: false }),
        0xf5 => Some(Op { instruction: Instruction::SBC, mode: AddressingMode::ZeroPageX, cycles: 4, increase_cycle_when_cross_page: false }),
        0xf6 => Some(Op { instruction: Instruction::INC, mode: AddressingMode::ZeroPageX, cycles: 6, increase_cycle_when_cross_page: false }),
        0xf7 => Some(Op { instruction: Instruction::ISC, mode: AddressingMode::ZeroPageX, cycles: 6, increase_cycle_when_cross_page: false }),
        0xf8 => Some(Op { instruction: Instruction::SED, mode: AddressingMode::Implied, cycles: 2, increase_cycle_when_cross_page: false }),
        0xf9 => Some(Op { instruction: Instruction::SBC, mode: AddressingMode::AbsoluteY, cycles: 4, increase_cycle_when_cross_page: true }),
        0xfa => Some(Op { instruction: Instruction::NOP, mode: AddressingMode::Implied, cycles: 2, increase_cycle_when_cross_page: false }),
        0xfb => Some(Op { instruction: Instruction::ISC, mode: AddressingMode::AbsoluteY, cycles: 7, increase_cycle_when_cross_page: false }),
        0xfc => Some(Op { instruction: Instruction::IGN, mode: AddressingMode::AbsoluteX, cycles: 4, increase_cycle_when_cross_page: true }),
        0xfd => Some(Op { instruction: Instruction::SBC, mode: AddressingMode::AbsoluteX, cycles: 4, increase_cycle_when_cross_page: true }),
        0xfe => Some(Op { instruction: Instruction::INC, mode: AddressingMode::AbsoluteX, cycles: 7, increase_cycle_when_cross_page: false }),
        0xff => Some(Op { instruction: Instruction::ISC, mode: AddressingMode::AbsoluteX, cycles: 7, increase_cycle_when_cross_page: false }),
        _ => None,
    }
}

} // verus!
