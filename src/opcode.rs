use vstd::prelude::*;

verus! {

/// How an instruction finds its operand.
#[allow(clippy::upper_case_acronyms)]
#[derive(Debug, Clone, Copy, PartialEq, Eq, Structural)]
pub enum AddressingMode {
    /// Implied: no operand bytes; may work on the accumulator.
    IMP,
    /// Immediate: the operand is the next byte.
    IMM,
    /// Zero page: the next byte is an address in page zero.
    ZP0,
    /// Zero page plus X, wrapping within page zero.
    ZPX,
    /// Zero page plus Y, wrapping within page zero.
    ZPY,
    /// Relative: the next byte is a signed branch offset.
    REL,
    /// Absolute: the next two bytes are the address, low byte first.
    ABS,
    /// Absolute plus X; costs a cycle more when a page is crossed.
    ABX,
    /// Absolute plus Y; costs a cycle more when a page is crossed.
    ABY,
    /// Indirect: the next two bytes point at the address, with the
    /// hardware's page-wrap bug.
    IND,
    /// Indexed indirect: page-zero pointer at (next byte + X).
    IZX,
    /// Indirect indexed: page-zero pointer at the next byte, plus Y; costs a
    /// cycle more when a page is crossed.
    IZY,
}

/// The operation of an instruction.
#[allow(clippy::upper_case_acronyms)]
#[derive(Debug, Clone, Copy, PartialEq, Eq, Structural)]
pub enum OpCodeType {
    /// Add with carry.
    ADC,
    /// And with the accumulator.
    AND,
    /// Arithmetic shift left.
    ASL,
    /// Branch if carry clear.
    BCC,
    /// Branch if carry set.
    BCS,
    /// Branch if equal (zero set).
    BEQ,
    /// Bit test.
    BIT,
    /// Branch if minus.
    BMI,
    /// Branch if not equal (zero clear).
    BNE,
    /// Branch if plus.
    BPL,
    /// Break: software interrupt.
    BRK,
    /// Branch if overflow clear.
    BVC,
    /// Branch if overflow set.
    BVS,
    /// Clear carry.
    CLC,
    /// Clear decimal.
    CLD,
    /// Clear interrupt disable.
    CLI,
    /// Clear overflow.
    CLV,
    /// Compare with the accumulator.
    CMP,
    /// Compare with X.
    CPX,
    /// Compare with Y.
    CPY,
    /// Decrement memory.
    DEC,
    /// Decrement X.
    DEX,
    /// Decrement Y.
    DEY,
    /// Exclusive or with the accumulator.
    EOR,
    /// Increment memory.
    INC,
    /// Increment X.
    INX,
    /// Increment Y.
    INY,
    /// Jump.
    JMP,
    /// Jump to subroutine.
    JSR,
    /// Load the accumulator.
    LDA,
    /// Load X.
    LDX,
    /// Load Y.
    LDY,
    /// Logical shift right.
    LSR,
    /// No operation.
    NOP,
    /// Or with the accumulator.
    ORA,
    /// Push the accumulator.
    PHA,
    /// Push the status.
    PHP,
    /// Pull the accumulator.
    PLA,
    /// Pull the status.
    PLP,
    /// Rotate left.
    ROL,
    /// Rotate right.
    ROR,
    /// Return from interrupt.
    RTI,
    /// Return from subroutine.
    RTS,
    /// Subtract with carry.
    SBC,
    /// Set carry.
    SEC,
    /// Set decimal.
    SED,
    /// Set interrupt disable.
    SEI,
    /// Store the accumulator.
    STA,
    /// Store X.
    STX,
    /// Store Y.
    STY,
    /// Transfer A to X.
    TAX,
    /// Transfer A to Y.
    TAY,
    /// Transfer the stack pointer to X.
    TSX,
    /// Transfer X to A.
    TXA,
    /// Transfer X to the stack pointer.
    TXS,
    /// Transfer Y to A.
    TYA,
    /// An opcode that the 6502 does not define; acts as a no-op.
    XXX,
}

/// A decoded opcode: its operation, addressing mode and base cycle count.
#[derive(Debug, Clone, Copy, PartialEq, Eq, Structural)]
pub struct OpCode {
    pub code_type: OpCodeType,
    pub addressing_mode: AddressingMode,
    pub cycles: u8,
}

impl OpCode {
    pub open spec fn spec_new(code_type: OpCodeType, addressing_mode: AddressingMode, cycles: u8) -> OpCode {
        OpCode { code_type, addressing_mode, cycles }
    }

    #[verifier::when_used_as_spec(spec_new)]
    pub fn new(code_type: OpCodeType, addressing_mode: AddressingMode, cycles: u8) -> (r: OpCode)
        ensures
            r == OpCode::spec_new(code_type, addressing_mode, cycles),
    {
        OpCode { code_type, addressing_mode, cycles }
    }
}

/// The 6502 opcode table: every byte value has an entry.
#[verifier::opaque]
pub open spec fn opcode_table(raw: u8) -> OpCode {
    match raw {
        0x00 => OpCode::spec_new(OpCodeType::BRK, AddressingMode::IMM, 7),
        0x01 => OpCode::spec_new(OpCodeType::ORA, AddressingMode::IZX, 6),
        0x02 => OpCode::spec_new(OpCodeType::XXX, AddressingMode::IMP, 2),
        0x03 => OpCode::spec_new(OpCodeType::XXX, AddressingMode::IMP, 8),
        0x04 => OpCode::spec_new(OpCodeType::NOP, AddressingMode::IMP, 3),
        0x05 => OpCode::spec_new(OpCodeType::ORA, AddressingMode::ZP0, 3),
        0x06 => OpCode::spec_new(OpCodeType::ASL, AddressingMode::ZP0, 5),
        0x07 => OpCode::spec_new(OpCodeType::XXX, AddressingMode::IMP, 5),
        0x08 => OpCode::spec_new(OpCodeType::PHP, AddressingMode::IMP, 3),
        0x09 => OpCode::spec_new(OpCodeType::ORA, AddressingMode::IMM, 2),
        0x0A => OpCode::spec_new(OpCodeType::ASL, AddressingMode::IMP, 2),
        0x0B => OpCode::spec_new(OpCodeType::XXX, AddressingMode::IMP, 2),
        0x0C => OpCode::spec_new(OpCodeType::NOP, AddressingMode::IMP, 4),
        0x0D => OpCode::spec_new(OpCodeType::ORA, AddressingMode::ABS, 4),
        0x0E => OpCode::spec_new(OpCodeType::ASL, AddressingMode::ABS, 6),
        0x0F => OpCode::spec_new(OpCodeType::XXX, AddressingMode::IMP, 6),
        0x10 => OpCode::spec_new(OpCodeType::BPL, AddressingMode::REL, 2),
        0x11 => OpCode::spec_new(OpCodeType::ORA, AddressingMode::IZY, 5),
        0x12 => OpCode::spec_new(OpCodeType::XXX, AddressingMode::IMP, 2),
        0x13 => OpCode::spec_new(OpCodeType::XXX, AddressingMode::IMP, 8),
        0x14 => OpCode::spec_new(OpCodeType::NOP, AddressingMode::IMP, 4),
        0x15 => OpCode::spec_new(OpCodeType::ORA, AddressingMode::ZPX, 4),
        0x16 => OpCode::spec_new(OpCodeType::ASL, AddressingMode::ZPX, 6),
        0x17 => OpCode::spec_new(OpCodeType::XXX, AddressingMode::IMP, 6),
        0x18 => OpCode::spec_new(OpCodeType::CLC, AddressingMode::IMP, 2),
        0x19 => OpCode::spec_new(OpCodeType::ORA, AddressingMode::ABY, 4),
        0x1A => OpCode::spec_new(OpCodeType::NOP, AddressingMode::IMP, 2),
        0x1B => OpCode::spec_new(OpCodeType::XXX, AddressingMode::IMP, 7),
        0x1C => OpCode::spec_new(OpCodeType::NOP, AddressingMode::IMP, 4),
        0x1D => OpCode::spec_new(OpCodeType::ORA, AddressingMode::ABX, 4),
        0x1E => OpCode::spec_new(OpCodeType::ASL, AddressingMode::ABX, 7),
        0x1F => OpCode::spec_new(OpCodeType::XXX, AddressingMode::IMP, 7),
        0x20 => OpCode::spec_new(OpCodeType::JSR, AddressingMode::ABS, 6),
        0x21 => OpCode::spec_new(OpCodeType::AND, AddressingMode::IZX, 6),
        0x22 => OpCode::spec_new(OpCodeType::XXX, AddressingMode::IMP, 2),
        0x23 => OpCode::spec_new(OpCodeType::XXX, AddressingMode::IMP, 8),
        0x24 => OpCode::spec_new(OpCodeType::BIT, AddressingMode::ZP0, 3),
        0x25 => OpCode::spec_new(OpCodeType::AND, AddressingMode::ZP0, 3),
        0x26 => OpCode::spec_new(OpCodeType::ROL, AddressingMode::ZP0, 5),
        0x27 => OpCode::spec_new(OpCodeType::XXX, AddressingMode::IMP, 5),
        0x28 => OpCode::spec_new(OpCodeType::PLP, AddressingMode::IMP, 4),
        0x29 => OpCode::spec_new(OpCodeType::AND, AddressingMode::IMM, 2),
        0x2A => OpCode::spec_new(OpCodeType::ROL, AddressingMode::IMP, 2),
        0x2B => OpCode::spec_new(OpCodeType::XXX, AddressingMode::IMP, 2),
        0x2C => OpCode::spec_new(OpCodeType::BIT, AddressingMode::ABS, 4),
        0x2D => OpCode::spec_new(OpCodeType::AND, AddressingMode::ABS, 4),
        0x2E => OpCode::spec_new(OpCodeType::ROL, AddressingMode::ABS, 6),
        0x2F => OpCode::spec_new(OpCodeType::XXX, AddressingMode::IMP, 6),
        0x30 => OpCode::spec_new(OpCodeType::BMI, AddressingMode::REL, 2),
        0x31 => OpCode::spec_new(OpCodeType::AND, AddressingMode::IZY, 5),
        0x32 => OpCode::spec_new(OpCodeType::XXX, AddressingMode::IMP, 2),
        0x33 => OpCode::spec_new(OpCodeType::XXX, AddressingMode::IMP, 8),
        0x34 => OpCode::spec_new(OpCodeType::NOP, AddressingMode::IMP, 4),
        0x35 => OpCode::spec_new(OpCodeType::AND, AddressingMode::ZPX, 4),
        0x36 => OpCode::spec_new(OpCodeType::ROL, AddressingMode::ZPX, 6),
        0x37 => OpCode::spec_new(OpCodeType::XXX, AddressingMode::IMP, 6),
        0x38 => OpCode::spec_new(OpCodeType::SEC, AddressingMode::IMP, 2),
        0x39 => OpCode::spec_new(OpCodeType::AND, AddressingMode::ABY, 4),
        0x3A => OpCode::spec_new(OpCodeType::NOP, AddressingMode::IMP, 2),
        0x3B => OpCode::spec_new(OpCodeType::XXX, AddressingMode::IMP, 7),
        0x3C => OpCode::spec_new(OpCodeType::NOP, AddressingMode::IMP, 4),
        0x3D => OpCode::spec_new(OpCodeType::AND, AddressingMode::ABX, 4),
        0x3E => OpCode::spec_new(OpCodeType::ROL, AddressingMode::ABX, 7),
        0x3F => OpCode::spec_new(OpCodeType::XXX, AddressingMode::IMP, 7),
        0x40 => OpCode::spec_new(OpCodeType::RTI, AddressingMode::IMP, 6),
        0x41 => OpCode::spec_new(OpCodeType::EOR, AddressingMode::IZX, 6),
        0x42 => OpCode::spec_new(OpCodeType::XXX, AddressingMode::IMP, 2),
        0x43 => OpCode::spec_new(OpCodeType::XXX, AddressingMode::IMP, 8),
        0x44 => OpCode::spec_new(OpCodeType::NOP, AddressingMode::IMP, 3),
        0x45 => OpCode::spec_new(OpCodeType::EOR, AddressingMode::ZP0, 3),
        0x46 => OpCode::spec_new(OpCodeType::LSR, AddressingMode::ZP0, 5),
        0x47 => OpCode::spec_new(OpCodeType::XXX, AddressingMode::IMP, 5),
        0x48 => OpCode::spec_new(OpCodeType::PHA, AddressingMode::IMP, 3),
        0x49 => OpCode::spec_new(OpCodeType::EOR, AddressingMode::IMM, 2),
        0x4A => OpCode::spec_new(OpCodeType::LSR, AddressingMode::IMP, 2),
        0x4B => OpCode::spec_new(OpCodeType::XXX, AddressingMode::IMP, 2),
        0x4C => OpCode::spec_new(OpCodeType::JMP, AddressingMode::ABS, 3),
        0x4D => OpCode::spec_new(OpCodeType::EOR, AddressingMode::ABS, 4),
        0x4E => OpCode::spec_new(OpCodeType::LSR, AddressingMode::ABS, 6),
        0x4F => OpCode::spec_new(OpCodeType::XXX, AddressingMode::IMP, 6),
        0x50 => OpCode::spec_new(OpCodeType::BVC, AddressingMode::REL, 2),
        0x51 => OpCode::spec_new(OpCodeType::EOR, AddressingMode::IZY, 5),
        0x52 => OpCode::spec_new(OpCodeType::XXX, AddressingMode::IMP, 2),
        0x53 => OpCode::spec_new(OpCodeType::XXX, AddressingMode::IMP, 8),
        0x54 => OpCode::spec_new(OpCodeType::NOP, AddressingMode::IMP, 4),
        0x55 => OpCode::spec_new(OpCodeType::EOR, AddressingMode::ZPX, 4),
        0x56 => OpCode::spec_new(OpCodeType::LSR, AddressingMode::ZPX, 6),
        0x57 => OpCode::spec_new(OpCodeType::XXX, AddressingMode::IMP, 6),
        0x58 => OpCode::spec_new(OpCodeType::CLI, AddressingMode::IMP, 2),
        0x59 => OpCode::spec_new(OpCodeType::EOR, AddressingMode::ABY, 4),
        0x5A => OpCode::spec_new(OpCodeType::NOP, AddressingMode::IMP, 2),
        0x5B => OpCode::spec_new(OpCodeType::XXX, AddressingMode::IMP, 7),
        0x5C => OpCode::spec_new(OpCodeType::NOP, AddressingMode::IMP, 4),
        0x5D => OpCode::spec_new(OpCodeType::EOR, AddressingMode::ABX, 4),
        0x5E => OpCode::spec_new(OpCodeType::LSR, AddressingMode::ABX, 7),
        0x5F => OpCode::spec_new(OpCodeType::XXX, AddressingMode::IMP, 7),
        0x60 => OpCode::spec_new(OpCodeType::RTS, AddressingMode::IMP, 6),
        0x61 => OpCode::spec_new(OpCodeType::ADC, AddressingMode::IZX, 6),
        0x62 => OpCode::spec_new(OpCodeType::XXX, AddressingMode::IMP, 2),
        0x63 => OpCode::spec_new(OpCodeType::XXX, AddressingMode::IMP, 8),
        0x64 => OpCode::spec_new(OpCodeType::NOP, AddressingMode::IMP, 3),
        0x65 => OpCode::spec_new(OpCodeType::ADC, AddressingMode::ZP0, 3),
        0x66 => OpCode::spec_new(OpCodeType::ROR, AddressingMode::ZP0, 5),
        0x67 => OpCode::spec_new(OpCodeType::XXX, AddressingMode::IMP, 5),
        0x68 => OpCode::spec_new(OpCodeType::PLA, AddressingMode::IMP, 4),
        0x69 => OpCode::spec_new(OpCodeType::ADC, AddressingMode::IMM, 2),
        0x6A => OpCode::spec_new(OpCodeType::ROR, AddressingMode::IMP, 2),
        0x6B => OpCode::spec_new(OpCodeType::XXX, AddressingMode::IMP, 2),
        0x6C => OpCode::spec_new(OpCodeType::JMP, AddressingMode::IND, 5),
        0x6D => OpCode::spec_new(OpCodeType::ADC, AddressingMode::ABS, 4),
        0x6E => OpCode::spec_new(OpCodeType::ROR, AddressingMode::ABS, 6),
        0x6F => OpCode::spec_new(OpCodeType::XXX, AddressingMode::IMP, 6),
        0x70 => OpCode::spec_new(OpCodeType::BVS, AddressingMode::REL, 2),
        0x71 => OpCode::spec_new(OpCodeType::ADC, AddressingMode::IZY, 5),
        0x72 => OpCode::spec_new(OpCodeType::XXX, AddressingMode::IMP, 2),
        0x73 => OpCode::spec_new(OpCodeType::XXX, AddressingMode::IMP, 8),
        0x74 => OpCode::spec_new(OpCodeType::NOP, AddressingMode::IMP, 4),
        0x75 => OpCode::spec_new(OpCodeType::ADC, AddressingMode::ZPX, 4),
        0x76 => OpCode::spec_new(OpCodeType::ROR, AddressingMode::ZPX, 6),
        0x77 => OpCode::spec_new(OpCodeType::XXX, AddressingMode::IMP, 6),
        0x78 => OpCode::spec_new(OpCodeType::SEI, AddressingMode::IMP, 2),
        0x79 => OpCode::spec_new(OpCodeType::ADC, AddressingMode::ABY, 4),
        0x7A => OpCode::spec_new(OpCodeType::NOP, AddressingMode::IMP, 2),
        0x7B => OpCode::spec_new(OpCodeType::XXX, AddressingMode::IMP, 7),
        0x7C => OpCode::spec_new(OpCodeType::NOP, AddressingMode::IMP, 4),
        0x7D => OpCode::spec_new(OpCodeType::ADC, AddressingMode::ABX, 4),
        0x7E => OpCode::spec_new(OpCodeType::ROR, AddressingMode::ABX, 7),
        0x7F => OpCode::spec_new(OpCodeType::XXX, AddressingMode::IMP, 7),
        0x80 => OpCode::spec_new(OpCodeType::NOP, AddressingMode::IMP, 2),
        0x81 => OpCode::spec_new(OpCodeType::STA, AddressingMode::IZX, 6),
        0x82 => OpCode::spec_new(OpCodeType::NOP, AddressingMode::IMP, 2),
        0x83 => OpCode::spec_new(OpCodeType::XXX, AddressingMode::IMP, 6),
        0x84 => OpCode::spec_new(OpCodeType::STY, AddressingMode::ZP0, 3),
        0x85 => OpCode::spec_new(OpCodeType::STA, AddressingMode::ZP0, 3),
        0x86 => OpCode::spec_new(OpCodeType::STX, AddressingMode::ZP0, 3),
        0x87 => OpCode::spec_new(OpCodeType::XXX, AddressingMode::IMP, 3),
        0x88 => OpCode::spec_new(OpCodeType::DEY, AddressingMode::IMP, 2),
        0x89 => OpCode::spec_new(OpCodeType::NOP, AddressingMode::IMP, 2),
        0x8A => OpCode::spec_new(OpCodeType::TXA, AddressingMode::IMP, 2),
        0x8B => OpCode::spec_new(OpCodeType::XXX, AddressingMode::IMP, 2),
        0x8C => OpCode::spec_new(OpCodeType::STY, AddressingMode::ABS, 4),
        0x8D => OpCode::spec_new(OpCodeType::STA, AddressingMode::ABS, 4),
        0x8E => OpCode::spec_new(OpCodeType::STX, AddressingMode::ABS, 4),
        0x8F => OpCode::spec_new(OpCodeType::XXX, AddressingMode::IMP, 4),
        0x90 => OpCode::spec_new(OpCodeType::BCC, AddressingMode::REL, 2),
        0x91 => OpCode::spec_new(OpCodeType::STA, AddressingMode::IZY, 6),
        0x92 => OpCode::spec_new(OpCodeType::XXX, AddressingMode::IMP, 2),
        0x93 => OpCode::spec_new(OpCodeType::XXX, AddressingMode::IMP, 6),
        0x94 => OpCode::spec_new(OpCodeType::STY, AddressingMode::ZPX, 4),
        0x95 => OpCode::spec_new(OpCodeType::STA, AddressingMode::ZPX, 4),
        0x96 => OpCode::spec_new(OpCodeType::STX, AddressingMode::ZPY, 4),
        0x97 => OpCode::spec_new(OpCodeType::XXX, AddressingMode::IMP, 4),
        0x98 => OpCode::spec_new(OpCodeType::TYA, AddressingMode::IMP, 2),
        0x99 => OpCode::spec_new(OpCodeType::STA, AddressingMode::ABY, 5),
        0x9A => OpCode::spec_new(OpCodeType::TXS, AddressingMode::IMP, 2),
        0x9B => OpCode::spec_new(OpCodeType::XXX, AddressingMode::IMP, 5),
        0x9C => OpCode::spec_new(OpCodeType::NOP, AddressingMode::IMP, 5),
        0x9D => OpCode::spec_new(OpCodeType::STA, AddressingMode::ABX, 5),
        0x9E => OpCode::spec_new(OpCodeType::XXX, AddressingMode::IMP, 5),
        0x9F => OpCode::spec_new(OpCodeType::XXX, AddressingMode::IMP, 5),
        0xA0 => OpCode::spec_new(OpCodeType::LDY, AddressingMode::IMM, 2),
        0xA1 => OpCode::spec_new(OpCodeType::LDA, AddressingMode::IZX, 6),
        0xA2 => OpCode::spec_new(OpCodeType::LDX, AddressingMode::IMM, 2),
        0xA3 => OpCode::spec_new(OpCodeType::XXX, AddressingMode::IMP, 6),
        0xA4 => OpCode::spec_new(OpCodeType::LDY, AddressingMode::ZP0, 3),
        0xA5 => OpCode::spec_new(OpCodeType::LDA, AddressingMode::ZP0, 3),
        0xA6 => OpCode::spec_new(OpCodeType::LDX, AddressingMode::ZP0, 3),
        0xA7 => OpCode::spec_new(OpCodeType::XXX, AddressingMode::IMP, 3),
        0xA8 => OpCode::spec_new(OpCodeType::TAY, AddressingMode::IMP, 2),
        0xA9 => OpCode::spec_new(OpCodeType::LDA, AddressingMode::IMM, 2),
        0xAA => OpCode::spec_new(OpCodeType::TAX, AddressingMode::IMP, 2),
        0xAB => OpCode::spec_new(OpCodeType::XXX, AddressingMode::IMP, 2),
        0xAC => OpCode::spec_new(OpCodeType::LDY, AddressingMode::ABS, 4),
        0xAD => OpCode::spec_new(OpCodeType::LDA, AddressingMode::ABS, 4),
        0xAE => OpCode::spec_new(OpCodeType::LDX, AddressingMode::ABS, 4),
        0xAF => OpCode::spec_new(OpCodeType::XXX, AddressingMode::IMP, 4),
        0xB0 => OpCode::spec_new(OpCodeType::BCS, AddressingMode::REL, 2),
        0xB1 => OpCode::spec_new(OpCodeType::LDA, AddressingMode::IZY, 5),
        0xB2 => OpCode::spec_new(OpCodeType::XXX, AddressingMode::IMP, 2),
        0xB3 => OpCode::spec_new(OpCodeType::XXX, AddressingMode::IMP, 5),
        0xB4 => OpCode::spec_new(OpCodeType::LDY, AddressingMode::ZPX, 4),
        0xB5 => OpCode::spec_new(OpCodeType::LDA, AddressingMode::ZPX, 4),
        0xB6 => OpCode::spec_new(OpCodeType::LDX, AddressingMode::ZPY, 4),
        0xB7 => OpCode::spec_new(OpCodeType::XXX, AddressingMode::IMP, 4),
        0xB8 => OpCode::spec_new(OpCodeType::CLV, AddressingMode::IMP, 2),
        0xB9 => OpCode::spec_new(OpCodeType::LDA, AddressingMode::ABY, 4),
        0xBA => OpCode::spec_new(OpCodeType::TSX, AddressingMode::IMP, 2),
        0xBB => OpCode::spec_new(OpCodeType::XXX, AddressingMode::IMP, 4),
        0xBC => OpCode::spec_new(OpCodeType::LDY, AddressingMode::ABX, 4),
        0xBD => OpCode::spec_new(OpCodeType::LDA, AddressingMode::ABX, 4),
        0xBE => OpCode::spec_new(OpCodeType::LDX, AddressingMode::ABY, 4),
        0xBF => OpCode::spec_new(OpCodeType::XXX, AddressingMode::IMP, 4),
        0xC0 => OpCode::spec_new(OpCodeType::CPY, AddressingMode::IMM, 2),
        0xC1 => OpCode::spec_new(OpCodeType::CMP, AddressingMode::IZX, 6),
        0xC2 => OpCode::spec_new(OpCodeType::NOP, AddressingMode::IMP, 2),
        0xC3 => OpCode::spec_new(OpCodeType::XXX, AddressingMode::IMP, 8),
        0xC4 => OpCode::spec_new(OpCodeType::CPY, AddressingMode::ZP0, 3),
        0xC5 => OpCode::spec_new(OpCodeType::CMP, AddressingMode::ZP0, 3),
        0xC6 => OpCode::spec_new(OpCodeType::DEC, AddressingMode::ZP0, 5),
        0xC7 => OpCode::spec_new(OpCodeType::XXX, AddressingMode::IMP, 5),
        0xC8 => OpCode::spec_new(OpCodeType::INY, AddressingMode::IMP, 2),
        0xC9 => OpCode::spec_new(OpCodeType::CMP, AddressingMode::IMM, 2),
        0xCA => OpCode::spec_new(OpCodeType::DEX, AddressingMode::IMP, 2),
        0xCB => OpCode::spec_new(OpCodeType::XXX, AddressingMode::IMP, 2),
        0xCC => OpCode::spec_new(OpCodeType::CPY, AddressingMode::ABS, 4),
        0xCD => OpCode::spec_new(OpCodeType::CMP, AddressingMode::ABS, 4),
        0xCE => OpCode::spec_new(OpCodeType::DEC, AddressingMode::ABS, 6),
        0xCF => OpCode::spec_new(OpCodeType::XXX, AddressingMode::IMP, 6),
        0xD0 => OpCode::spec_new(OpCodeType::BNE, AddressingMode::REL, 2),
        0xD1 => OpCode::spec_new(OpCodeType::CMP, AddressingMode::IZY, 5),
        0xD2 => OpCode::spec_new(OpCodeType::XXX, AddressingMode::IMP, 2),
        0xD3 => OpCode::spec_new(OpCodeType::XXX, AddressingMode::IMP, 8),
        0xD4 => OpCode::spec_new(OpCodeType::NOP, AddressingMode::IMP, 4),
        0xD5 => OpCode::spec_new(OpCodeType::CMP, AddressingMode::ZPX, 4),
        0xD6 => OpCode::spec_new(OpCodeType::DEC, AddressingMode::ZPX, 6),
        0xD7 => OpCode::spec_new(OpCodeType::XXX, AddressingMode::IMP, 6),
        0xD8 => OpCode::spec_new(OpCodeType::CLD, AddressingMode::IMP, 2),
        0xD9 => OpCode::spec_new(OpCodeType::CMP, AddressingMode::ABY, 4),
        0xDA => OpCode::spec_new(OpCodeType::NOP, AddressingMode::IMP, 2),
        0xDB => OpCode::spec_new(OpCodeType::XXX, AddressingMode::IMP, 7),
        0xDC => OpCode::spec_new(OpCodeType::NOP, AddressingMode::IMP, 4),
        0xDD => OpCode::spec_new(OpCodeType::CMP, AddressingMode::ABX, 4),
        0xDE => OpCode::spec_new(OpCodeType::DEC, AddressingMode::ABX, 7),
        0xDF => OpCode::spec_new(OpCodeType::XXX, AddressingMode::IMP, 7),
        0xE0 => OpCode::spec_new(OpCodeType::CPX, AddressingMode::IMM, 2),
        0xE1 => OpCode::spec_new(OpCodeType::SBC, AddressingMode::IZX, 6),
        0xE2 => OpCode::spec_new(OpCodeType::NOP, AddressingMode::IMP, 2),
        0xE3 => OpCode::spec_new(OpCodeType::XXX, AddressingMode::IMP, 8),
        0xE4 => OpCode::spec_new(OpCodeType::CPX, AddressingMode::ZP0, 3),
        0xE5 => OpCode::spec_new(OpCodeType::SBC, AddressingMode::ZP0, 3),
        0xE6 => OpCode::spec_new(OpCodeType::INC, AddressingMode::ZP0, 5),
        0xE7 => OpCode::spec_new(OpCodeType::XXX, AddressingMode::IMP, 5),
        0xE8 => OpCode::spec_new(OpCodeType::INX, AddressingMode::IMP, 2),
        0xE9 => OpCode::spec_new(OpCodeType::SBC, AddressingMode::IMM, 2),
        0xEA => OpCode::spec_new(OpCodeType::NOP, AddressingMode::IMP, 2),
        0xEB => OpCode::spec_new(OpCodeType::XXX, AddressingMode::IMP, 2),
        0xEC => OpCode::spec_new(OpCodeType::CPX, AddressingMode::ABS, 4),
        0xED => OpCode::spec_new(OpCodeType::SBC, AddressingMode::ABS, 4),
        0xEE => OpCode::spec_new(OpCodeType::INC, AddressingMode::ABS, 6),
        0xEF => OpCode::spec_new(OpCodeType::XXX, AddressingMode::IMP, 6),
        0xF0 => OpCode::spec_new(OpCodeType::BEQ, AddressingMode::REL, 2),
        0xF1 => OpCode::spec_new(OpCodeType::SBC, AddressingMode::IZY, 5),
        0xF2 => OpCode::spec_new(OpCodeType::XXX, AddressingMode::IMP, 2),
        0xF3 => OpCode::spec_new(OpCodeType::XXX, AddressingMode::IMP, 8),
        0xF4 => OpCode::spec_new(OpCodeType::NOP, AddressingMode::IMP, 4),
        0xF5 => OpCode::spec_new(OpCodeType::SBC, AddressingMode::ZPX, 4),
        0xF6 => OpCode::spec_new(OpCodeType::INC, AddressingMode::ZPX, 6),
        0xF7 => OpCode::spec_new(OpCodeType::XXX, AddressingMode::IMP, 6),
        0xF8 => OpCode::spec_new(OpCodeType::SED, AddressingMode::IMP, 2),
        0xF9 => OpCode::spec_new(OpCodeType::SBC, AddressingMode::ABY, 4),
        0xFA => OpCode::spec_new(OpCodeType::NOP, AddressingMode::IMP, 2),
        0xFB => OpCode::spec_new(OpCodeType::XXX, AddressingMode::IMP, 7),
        0xFC => OpCode::spec_new(OpCodeType::NOP, AddressingMode::IMP, 4),
        0xFD => OpCode::spec_new(OpCodeType::SBC, AddressingMode::ABX, 4),
        0xFE => OpCode::spec_new(OpCodeType::INC, AddressingMode::ABX, 7),
        _ => OpCode::spec_new(OpCodeType::XXX, AddressingMode::IMP, 7),
    }
}

fn opcode_from_hi_0x0(lo: u8) -> (r: OpCode)
    requires
        lo < 16,
    ensures
        r == opcode_table((0x00 + lo) as u8),
{
    proof {
        reveal(opcode_table);
    }
    match lo {
        0x0 => OpCode::new(OpCodeType::BRK, AddressingMode::IMM, 7),
        0x1 => OpCode::new(OpCodeType::ORA, AddressingMode::IZX, 6),
        0x2 => OpCode::new(OpCodeType::XXX, AddressingMode::IMP, 2),
        0x3 => OpCode::new(OpCodeType::XXX, AddressingMode::IMP, 8),
        0x4 => OpCode::new(OpCodeType::NOP, AddressingMode::IMP, 3),
        0x5 => OpCode::new(OpCodeType::ORA, AddressingMode::ZP0, 3),
        0x6 => OpCode::new(OpCodeType::ASL, AddressingMode::ZP0, 5),
        0x7 => OpCode::new(OpCodeType::XXX, AddressingMode::IMP, 5),
        0x8 => OpCode::new(OpCodeType::PHP, AddressingMode::IMP, 3),
        0x9 => OpCode::new(OpCodeType::ORA, AddressingMode::IMM, 2),
        0xA => OpCode::new(OpCodeType::ASL, AddressingMode::IMP, 2),
        0xB => OpCode::new(OpCodeType::XXX, AddressingMode::IMP, 2),
        0xC => OpCode::new(OpCodeType::NOP, AddressingMode::IMP, 4),
        0xD => OpCode::new(OpCodeType::ORA, AddressingMode::ABS, 4),
        0xE => OpCode::new(OpCodeType::ASL, AddressingMode::ABS, 6),
        0xF => OpCode::new(OpCodeType::XXX, AddressingMode::IMP, 6),
        _ => OpCode::new(OpCodeType::XXX, AddressingMode::IMP, 6),
    }
}

fn opcode_from_hi_0x1(lo: u8) -> (r: OpCode)
    requires
        lo < 16,
    ensures
        r == opcode_table((0x10 + lo) as u8),
{
    proof {
        reveal(opcode_table);
    }
    match lo {
        0x0 => OpCode::new(OpCodeType::BPL, AddressingMode::REL, 2),
        0x1 => OpCode::new(OpCodeType::ORA, AddressingMode::IZY, 5),
        0x2 => OpCode::new(OpCodeType::XXX, AddressingMode::IMP, 2),
        0x3 => OpCode::new(OpCodeType::XXX, AddressingMode::IMP, 8),
        0x4 => OpCode::new(OpCodeType::NOP, AddressingMode::IMP, 4),
        0x5 => OpCode::new(OpCodeType::ORA, AddressingMode::ZPX, 4),
        0x6 => OpCode::new(OpCodeType::ASL, AddressingMode::ZPX, 6),
        0x7 => OpCode::new(OpCodeType::XXX, AddressingMode::IMP, 6),
        0x8 => OpCode::new(OpCodeType::CLC, AddressingMode::IMP, 2),
        0x9 => OpCode::new(OpCodeType::ORA, AddressingMode::ABY, 4),
        0xA => OpCode::new(OpCodeType::NOP, AddressingMode::IMP, 2),
        0xB => OpCode::new(OpCodeType::XXX, AddressingMode::IMP, 7),
        0xC => OpCode::new(OpCodeType::NOP, AddressingMode::IMP, 4),
        0xD => OpCode::new(OpCodeType::ORA, AddressingMode::ABX, 4),
        0xE => OpCode::new(OpCodeType::ASL, AddressingMode::ABX, 7),
        0xF => OpCode::new(OpCodeType::XXX, AddressingMode::IMP, 7),
        _ => OpCode::new(OpCodeType::XXX, AddressingMode::IMP, 7),
    }
}

fn opcode_from_hi_0x2(lo: u8) -> (r: OpCode)
    requires
        lo < 16,
    ensures
        r == opcode_table((0x20 + lo) as u8),
{
    proof {
        reveal(opcode_table);
    }
    match lo {
        0x0 => OpCode::new(OpCodeType::JSR, AddressingMode::ABS, 6),
        0x1 => OpCode::new(OpCodeType::AND, AddressingMode::IZX, 6),
        0x2 => OpCode::new(OpCodeType::XXX, AddressingMode::IMP, 2),
        0x3 => OpCode::new(OpCodeType::XXX, AddressingMode::IMP, 8),
        0x4 => OpCode::new(OpCodeType::BIT, AddressingMode::ZP0, 3),
        0x5 => OpCode::new(OpCodeType::AND, AddressingMode::ZP0, 3),
        0x6 => OpCode::new(OpCodeType::ROL, AddressingMode::ZP0, 5),
        0x7 => OpCode::new(OpCodeType::XXX, AddressingMode::IMP, 5),
        0x8 => OpCode::new(OpCodeType::PLP, AddressingMode::IMP, 4),
        0x9 => OpCode::new(OpCodeType::AND, AddressingMode::IMM, 2),
        0xA => OpCode::new(OpCodeType::ROL, AddressingMode::IMP, 2),
        0xB => OpCode::new(OpCodeType::XXX, AddressingMode::IMP, 2),
        0xC => OpCode::new(OpCodeType::BIT, AddressingMode::ABS, 4),
        0xD => OpCode::new(OpCodeType::AND, AddressingMode::ABS, 4),
        0xE => OpCode::new(OpCodeType::ROL, AddressingMode::ABS, 6),
        0xF => OpCode::new(OpCodeType::XXX, AddressingMode::IMP, 6),
        _ => OpCode::new(OpCodeType::XXX, AddressingMode::IMP, 6),
    }
}

fn opcode_from_hi_0x3(lo: u8) -> (r: OpCode)
    requires
        lo < 16,
    ensures
        r == opcode_table((0x30 + lo) as u8),
{
    proof {
        reveal(opcode_table);
    }
    match lo {
        0x0 => OpCode::new(OpCodeType::BMI, AddressingMode::REL, 2),
        0x1 => OpCode::new(OpCodeType::AND, AddressingMode::IZY, 5),
        0x2 => OpCode::new(OpCodeType::XXX, AddressingMode::IMP, 2),
        0x3 => OpCode::new(OpCodeType::XXX, AddressingMode::IMP, 8),
        0x4 => OpCode::new(OpCodeType::NOP, AddressingMode::IMP, 4),
        0x5 => OpCode::new(OpCodeType::AND, AddressingMode::ZPX, 4),
        0x6 => OpCode::new(OpCodeType::ROL, AddressingMode::ZPX, 6),
        0x7 => OpCode::new(OpCodeType::XXX, AddressingMode::IMP, 6),
        0x8 => OpCode::new(OpCodeType::SEC, AddressingMode::IMP, 2),
        0x9 => OpCode::new(OpCodeType::AND, AddressingMode::ABY, 4),
        0xA => OpCode::new(OpCodeType::NOP, AddressingMode::IMP, 2),
        0xB => OpCode::new(OpCodeType::XXX, AddressingMode::IMP, 7),
        0xC => OpCode::new(OpCodeType::NOP, AddressingMode::IMP, 4),
        0xD => OpCode::new(OpCodeType::AND, AddressingMode::ABX, 4),
        0xE => OpCode::new(OpCodeType::ROL, AddressingMode::ABX, 7),
        0xF => OpCode::new(OpCodeType::XXX, AddressingMode::IMP, 7),
        _ => OpCode::new(OpCodeType::XXX, AddressingMode::IMP, 7),
    }
}

fn opcode_from_hi_0x4(lo: u8) -> (r: OpCode)
    requires
        lo < 16,
    ensures
        r == opcode_table((0x40 + lo) as u8),
{
    proof {
        reveal(opcode_table);
    }
    match lo {
        0x0 => OpCode::new(OpCodeType::RTI, AddressingMode::IMP, 6),
        0x1 => OpCode::new(OpCodeType::EOR, AddressingMode::IZX, 6),
        0x2 => OpCode::new(OpCodeType::XXX, AddressingMode::IMP, 2),
        0x3 => OpCode::new(OpCodeType::XXX, AddressingMode::IMP, 8),
        0x4 => OpCode::new(OpCodeType::NOP, AddressingMode::IMP, 3),
        0x5 => OpCode::new(OpCodeType::EOR, AddressingMode::ZP0, 3),
        0x6 => OpCode::new(OpCodeType::LSR, AddressingMode::ZP0, 5),
        0x7 => OpCode::new(OpCodeType::XXX, AddressingMode::IMP, 5),
        0x8 => OpCode::new(OpCodeType::PHA, AddressingMode::IMP, 3),
        0x9 => OpCode::new(OpCodeType::EOR, AddressingMode::IMM, 2),
        0xA => OpCode::new(OpCodeType::LSR, AddressingMode::IMP, 2),
        0xB => OpCode::new(OpCodeType::XXX, AddressingMode::IMP, 2),
        0xC => OpCode::new(OpCodeType::JMP, AddressingMode::ABS, 3),
        0xD => OpCode::new(OpCodeType::EOR, AddressingMode::ABS, 4),
        0xE => OpCode::new(OpCodeType::LSR, AddressingMode::ABS, 6),
        0xF => OpCode::new(OpCodeType::XXX, AddressingMode::IMP, 6),
        _ => OpCode::new(OpCodeType::XXX, AddressingMode::IMP, 6),
    }
}

fn opcode_from_hi_0x5(lo: u8) -> (r: OpCode)
    requires
        lo < 16,
    ensures
        r == opcode_table((0x50 + lo) as u8),
{
    proof {
        reveal(opcode_table);
    }
    match lo {
        0x0 => OpCode::new(OpCodeType::BVC, AddressingMode::REL, 2),
        0x1 => OpCode::new(OpCodeType::EOR, AddressingMode::IZY, 5),
        0x2 => OpCode::new(OpCodeType::XXX, AddressingMode::IMP, 2),
        0x3 => OpCode::new(OpCodeType::XXX, AddressingMode::IMP, 8),
        0x4 => OpCode::new(OpCodeType::NOP, AddressingMode::IMP, 4),
        0x5 => OpCode::new(OpCodeType::EOR, AddressingMode::ZPX, 4),
        0x6 => OpCode::new(OpCodeType::LSR, AddressingMode::ZPX, 6),
        0x7 => OpCode::new(OpCodeType::XXX, AddressingMode::IMP, 6),
        0x8 => OpCode::new(OpCodeType::CLI, AddressingMode::IMP, 2),
        0x9 => OpCode::new(OpCodeType::EOR, AddressingMode::ABY, 4),
        0xA => OpCode::new(OpCodeType::NOP, AddressingMode::IMP, 2),
        0xB => OpCode::new(OpCodeType::XXX, AddressingMode::IMP, 7),
        0xC => OpCode::new(OpCodeType::NOP, AddressingMode::IMP, 4),
        0xD => OpCode::new(OpCodeType::EOR, AddressingMode::ABX, 4),
        0xE => OpCode::new(OpCodeType::LSR, AddressingMode::ABX, 7),
        0xF => OpCode::new(OpCodeType::XXX, AddressingMode::IMP, 7),
        _ => OpCode::new(OpCodeType::XXX, AddressingMode::IMP, 7),
    }
}

fn opcode_from_hi_0x6(lo: u8) -> (r: OpCode)
    requires
        lo < 16,
    ensures
        r == opcode_table((0x60 + lo) as u8),
{
    proof {
        reveal(opcode_table);
    }
    match lo {
        0x0 => OpCode::new(OpCodeType::RTS, AddressingMode::IMP, 6),
        0x1 => OpCode::new(OpCodeType::ADC, AddressingMode::IZX, 6),
        0x2 => OpCode::new(OpCodeType::XXX, AddressingMode::IMP, 2),
        0x3 => OpCode::new(OpCodeType::XXX, AddressingMode::IMP, 8),
        0x4 => OpCode::new(OpCodeType::NOP, AddressingMode::IMP, 3),
        0x5 => OpCode::new(OpCodeType::ADC, AddressingMode::ZP0, 3),
        0x6 => OpCode::new(OpCodeType::ROR, AddressingMode::ZP0, 5),
        0x7 => OpCode::new(OpCodeType::XXX, AddressingMode::IMP, 5),
        0x8 => OpCode::new(OpCodeType::PLA, AddressingMode::IMP, 4),
        0x9 => OpCode::new(OpCodeType::ADC, AddressingMode::IMM, 2),
        0xA => OpCode::new(OpCodeType::ROR, AddressingMode::IMP, 2),
        0xB => OpCode::new(OpCodeType::XXX, AddressingMode::IMP, 2),
        0xC => OpCode::new(OpCodeType::JMP, AddressingMode::IND, 5),
        0xD => OpCode::new(OpCodeType::ADC, AddressingMode::ABS, 4),
        0xE => OpCode::new(OpCodeType::ROR, AddressingMode::ABS, 6),
        0xF => OpCode::new(OpCodeType::XXX, AddressingMode::IMP, 6),
        _ => OpCode::new(OpCodeType::XXX, AddressingMode::IMP, 6),
    }
}

fn opcode_from_hi_0x7(lo: u8) -> (r: OpCode)
    requires
        lo < 16,
    ensures
        r == opcode_table((0x70 + lo) as u8),
{
    proof {
        reveal(opcode_table);
    }
    match lo {
        0x0 => OpCode::new(OpCodeType::BVS, AddressingMode::REL, 2),
        0x1 => OpCode::new(OpCodeType::ADC, AddressingMode::IZY, 5),
        0x2 => OpCode::new(OpCodeType::XXX, AddressingMode::IMP, 2),
        0x3 => OpCode::new(OpCodeType::XXX, AddressingMode::IMP, 8),
        0x4 => OpCode::new(OpCodeType::NOP, AddressingMode::IMP, 4),
        0x5 => OpCode::new(OpCodeType::ADC, AddressingMode::ZPX, 4),
        0x6 => OpCode::new(OpCodeType::ROR, AddressingMode::ZPX, 6),
        0x7 => OpCode::new(OpCodeType::XXX, AddressingMode::IMP, 6),
        0x8 => OpCode::new(OpCodeType::SEI, AddressingMode::IMP, 2),
        0x9 => OpCode::new(OpCodeType::ADC, AddressingMode::ABY, 4),
        0xA => OpCode::new(OpCodeType::NOP, AddressingMode::IMP, 2),
        0xB => OpCode::new(OpCodeType::XXX, AddressingMode::IMP, 7),
        0xC => OpCode::new(OpCodeType::NOP, AddressingMode::IMP, 4),
        0xD => OpCode::new(OpCodeType::ADC, AddressingMode::ABX, 4),
        0xE => OpCode::new(OpCodeType::ROR, AddressingMode::ABX, 7),
        0xF => OpCode::new(OpCodeType::XXX, AddressingMode::IMP, 7),
        _ => OpCode::new(OpCodeType::XXX, AddressingMode::IMP, 7),
    }
}

fn opcode_from_hi_0x8(lo: u8) -> (r: OpCode)
    requires
        lo < 16,
    ensures
        r == opcode_table((0x80 + lo) as u8),
{
    proof {
        reveal(opcode_table);
    }
    match lo {
        0x0 => OpCode::new(OpCodeType::NOP, AddressingMode::IMP, 2),
        0x1 => OpCode::new(OpCodeType::STA, AddressingMode::IZX, 6),
        0x2 => OpCode::new(OpCodeType::NOP, AddressingMode::IMP, 2),
        0x3 => OpCode::new(OpCodeType::XXX, AddressingMode::IMP, 6),
        0x4 => OpCode::new(OpCodeType::STY, AddressingMode::ZP0, 3),
        0x5 => OpCode::new(OpCodeType::STA, AddressingMode::ZP0, 3),
        0x6 => OpCode::new(OpCodeType::STX, AddressingMode::ZP0, 3),
        0x7 => OpCode::new(OpCodeType::XXX, AddressingMode::IMP, 3),
        0x8 => OpCode::new(OpCodeType::DEY, AddressingMode::IMP, 2),
        0x9 => OpCode::new(OpCodeType::NOP, AddressingMode::IMP, 2),
        0xA => OpCode::new(OpCodeType::TXA, AddressingMode::IMP, 2),
        0xB => OpCode::new(OpCodeType::XXX, AddressingMode::IMP, 2),
        0xC => OpCode::new(OpCodeType::STY, AddressingMode::ABS, 4),
        0xD => OpCode::new(OpCodeType::STA, AddressingMode::ABS, 4),
        0xE => OpCode::new(OpCodeType::STX, AddressingMode::ABS, 4),
        0xF => OpCode::new(OpCodeType::XXX, AddressingMode::IMP, 4),
        _ => OpCode::new(OpCodeType::XXX, AddressingMode::IMP, 4),
    }
}

fn opcode_from_hi_0x9(lo: u8) -> (r: OpCode)
    requires
        lo < 16,
    ensures
        r == opcode_table((0x90 + lo) as u8),
{
    proof {
        reveal(opcode_table);
    }
    match lo {
        0x0 => OpCode::new(OpCodeType::BCC, AddressingMode::REL, 2),
        0x1 => OpCode::new(OpCodeType::STA, AddressingMode::IZY, 6),
        0x2 => OpCode::new(OpCodeType::XXX, AddressingMode::IMP, 2),
        0x3 => OpCode::new(OpCodeType::XXX, AddressingMode::IMP, 6),
        0x4 => OpCode::new(OpCodeType::STY, AddressingMode::ZPX, 4),
        0x5 => OpCode::new(OpCodeType::STA, AddressingMode::ZPX, 4),
        0x6 => OpCode::new(OpCodeType::STX, AddressingMode::ZPY, 4),
        0x7 => OpCode::new(OpCodeType::XXX, AddressingMode::IMP, 4),
        0x8 => OpCode::new(OpCodeType::TYA, AddressingMode::IMP, 2),
        0x9 => OpCode::new(OpCodeType::STA, AddressingMode::ABY, 5),
        0xA => OpCode::new(OpCodeType::TXS, AddressingMode::IMP, 2),
        0xB => OpCode::new(OpCodeType::XXX, AddressingMode::IMP, 5),
        0xC => OpCode::new(OpCodeType::NOP, AddressingMode::IMP, 5),
        0xD => OpCode::new(OpCodeType::STA, AddressingMode::ABX, 5),
        0xE => OpCode::new(OpCodeType::XXX, AddressingMode::IMP, 5),
        0xF => OpCode::new(OpCodeType::XXX, AddressingMode::IMP, 5),
        _ => OpCode::new(OpCodeType::XXX, AddressingMode::IMP, 5),
    }
}

fn opcode_from_hi_0x_a(lo: u8) -> (r: OpCode)
    requires
        lo < 16,
    ensures
        r == opcode_table((0xA0 + lo) as u8),
{
    proof {
        reveal(opcode_table);
    }
    match lo {
        0x0 => OpCode::new(OpCodeType::LDY, AddressingMode::IMM, 2),
        0x1 => OpCode::new(OpCodeType::LDA, AddressingMode::IZX, 6),
        0x2 => OpCode::new(OpCodeType::LDX, AddressingMode::IMM, 2),
        0x3 => OpCode::new(OpCodeType::XXX, AddressingMode::IMP, 6),
        0x4 => OpCode::new(OpCodeType::LDY, AddressingMode::ZP0, 3),
        0x5 => OpCode::new(OpCodeType::LDA, AddressingMode::ZP0, 3),
        0x6 => OpCode::new(OpCodeType::LDX, AddressingMode::ZP0, 3),
        0x7 => OpCode::new(OpCodeType::XXX, AddressingMode::IMP, 3),
        0x8 => OpCode::new(OpCodeType::TAY, AddressingMode::IMP, 2),
        0x9 => OpCode::new(OpCodeType::LDA, AddressingMode::IMM, 2),
        0xA => OpCode::new(OpCodeType::TAX, AddressingMode::IMP, 2),
        0xB => OpCode::new(OpCodeType::XXX, AddressingMode::IMP, 2),
        0xC => OpCode::new(OpCodeType::LDY, AddressingMode::ABS, 4),
        0xD => OpCode::new(OpCodeType::LDA, AddressingMode::ABS, 4),
        0xE => OpCode::new(OpCodeType::LDX, AddressingMode::ABS, 4),
        0xF => OpCode::new(OpCodeType::XXX, AddressingMode::IMP, 4),
        _ => OpCode::new(OpCodeType::XXX, AddressingMode::IMP, 4),
    }
}

fn opcode_from_hi_0x_b(lo: u8) -> (r: OpCode)
    requires
        lo < 16,
    ensures
        r == opcode_table((0xB0 + lo) as u8),
{
    proof {
        reveal(opcode_table);
    }
    match lo {
        0x0 => OpCode::new(OpCodeType::BCS, AddressingMode::REL, 2),
        0x1 => OpCode::new(OpCodeType::LDA, AddressingMode::IZY, 5),
        0x2 => OpCode::new(OpCodeType::XXX, AddressingMode::IMP, 2),
        0x3 => OpCode::new(OpCodeType::XXX, AddressingMode::IMP, 5),
        0x4 => OpCode::new(OpCodeType::LDY, AddressingMode::ZPX, 4),
        0x5 => OpCode::new(OpCodeType::LDA, AddressingMode::ZPX, 4),
        0x6 => OpCode::new(OpCodeType::LDX, AddressingMode::ZPY, 4),
        0x7 => OpCode::new(OpCodeType::XXX, AddressingMode::IMP, 4),
        0x8 => OpCode::new(OpCodeType::CLV, AddressingMode::IMP, 2),
        0x9 => OpCode::new(OpCodeType::LDA, AddressingMode::ABY, 4),
        0xA => OpCode::new(OpCodeType::TSX, AddressingMode::IMP, 2),
        0xB => OpCode::new(OpCodeType::XXX, AddressingMode::IMP, 4),
        0xC => OpCode::new(OpCodeType::LDY, AddressingMode::ABX, 4),
        0xD => OpCode::new(OpCodeType::LDA, AddressingMode::ABX, 4),
        0xE => OpCode::new(OpCodeType::LDX, AddressingMode::ABY, 4),
        0xF => OpCode::new(OpCodeType::XXX, AddressingMode::IMP, 4),
        _ => OpCode::new(OpCodeType::XXX, AddressingMode::IMP, 4),
    }
}

fn opcode_from_hi_0x_c(lo: u8) -> (r: OpCode)
    requires
        lo < 16,
    ensures
        r == opcode_table((0xC0 + lo) as u8),
{
    proof {
        reveal(opcode_table);
    }
    match lo {
        0x0 => OpCode::new(OpCodeType::CPY, AddressingMode::IMM, 2),
        0x1 => OpCode::new(OpCodeType::CMP, AddressingMode::IZX, 6),
        0x2 => OpCode::new(OpCodeType::NOP, AddressingMode::IMP, 2),
        0x3 => OpCode::new(OpCodeType::XXX, AddressingMode::IMP, 8),
        0x4 => OpCode::new(OpCodeType::CPY, AddressingMode::ZP0, 3),
        0x5 => OpCode::new(OpCodeType::CMP, AddressingMode::ZP0, 3),
        0x6 => OpCode::new(OpCodeType::DEC, AddressingMode::ZP0, 5),
        0x7 => OpCode::new(OpCodeType::XXX, AddressingMode::IMP, 5),
        0x8 => OpCode::new(OpCodeType::INY, AddressingMode::IMP, 2),
        0x9 => OpCode::new(OpCodeType::CMP, AddressingMode::IMM, 2),
        0xA => OpCode::new(OpCodeType::DEX, AddressingMode::IMP, 2),
        0xB => OpCode::new(OpCodeType::XXX, AddressingMode::IMP, 2),
        0xC => OpCode::new(OpCodeType::CPY, AddressingMode::ABS, 4),
        0xD => OpCode::new(OpCodeType::CMP, AddressingMode::ABS, 4),
        0xE => OpCode::new(OpCodeType::DEC, AddressingMode::ABS, 6),
        0xF => OpCode::new(OpCodeType::XXX, AddressingMode::IMP, 6),
        _ => OpCode::new(OpCodeType::XXX, AddressingMode::IMP, 6),
    }
}

fn opcode_from_hi_0x_d(lo: u8) -> (r: OpCode)
    requires
        lo < 16,
    ensures
        r == opcode_table((0xD0 + lo) as u8),
{
    proof {
        reveal(opcode_table);
    }
    match lo {
        0x0 => OpCode::new(OpCodeType::BNE, AddressingMode::REL, 2),
        0x1 => OpCode::new(OpCodeType::CMP, AddressingMode::IZY, 5),
        0x2 => OpCode::new(OpCodeType::XXX, AddressingMode::IMP, 2),
        0x3 => OpCode::new(OpCodeType::XXX, AddressingMode::IMP, 8),
        0x4 => OpCode::new(OpCodeType::NOP, AddressingMode::IMP, 4),
        0x5 => OpCode::new(OpCodeType::CMP, AddressingMode::ZPX, 4),
        0x6 => OpCode::new(OpCodeType::DEC, AddressingMode::ZPX, 6),
        0x7 => OpCode::new(OpCodeType::XXX, AddressingMode::IMP, 6),
        0x8 => OpCode::new(OpCodeType::CLD, AddressingMode::IMP, 2),
        0x9 => OpCode::new(OpCodeType::CMP, AddressingMode::ABY, 4),
        0xA => OpCode::new(OpCodeType::NOP, AddressingMode::IMP, 2),
        0xB => OpCode::new(OpCodeType::XXX, AddressingMode::IMP, 7),
        0xC => OpCode::new(OpCodeType::NOP, AddressingMode::IMP, 4),
        0xD => OpCode::new(OpCodeType::CMP, AddressingMode::ABX, 4),
        0xE => OpCode::new(OpCodeType::DEC, AddressingMode::ABX, 7),
        0xF => OpCode::new(OpCodeType::XXX, AddressingMode::IMP, 7),
        _ => OpCode::new(OpCodeType::XXX, AddressingMode::IMP, 7),
    }
}

fn opcode_from_hi_0x_e(lo: u8) -> (r: OpCode)
    requires
        lo < 16,
    ensures
        r == opcode_table((0xE0 + lo) as u8),
{
    proof {
        reveal(opcode_table);
    }
    match lo {
        0x0 => OpCode::new(OpCodeType::CPX, AddressingMode::IMM, 2),
        0x1 => OpCode::new(OpCodeType::SBC, AddressingMode::IZX, 6),
        0x2 => OpCode::new(OpCodeType::NOP, AddressingMode::IMP, 2),
        0x3 => OpCode::new(OpCodeType::XXX, AddressingMode::IMP, 8),
        0x4 => OpCode::new(OpCodeType::CPX, AddressingMode::ZP0, 3),
        0x5 => OpCode::new(OpCodeType::SBC, AddressingMode::ZP0, 3),
        0x6 => OpCode::new(OpCodeType::INC, AddressingMode::ZP0, 5),
        0x7 => OpCode::new(OpCodeType::XXX, AddressingMode::IMP, 5),
        0x8 => OpCode::new(OpCodeType::INX, AddressingMode::IMP, 2),
        0x9 => OpCode::new(OpCodeType::SBC, AddressingMode::IMM, 2),
        0xA => OpCode::new(OpCodeType::NOP, AddressingMode::IMP, 2),
        0xB => OpCode::new(OpCodeType::XXX, AddressingMode::IMP, 2),
        0xC => OpCode::new(OpCodeType::CPX, AddressingMode::ABS, 4),
        0xD => OpCode::new(OpCodeType::SBC, AddressingMode::ABS, 4),
        0xE => OpCode::new(OpCodeType::INC, AddressingMode::ABS, 6),
        0xF => OpCode::new(OpCodeType::XXX, AddressingMode::IMP, 6),
        _ => OpCode::new(OpCodeType::XXX, AddressingMode::IMP, 6),
    }
}

fn opcode_from_hi_0x_f(lo: u8) -> (r: OpCode)
    requires
        lo < 16,
    ensures
        r == opcode_table((0xF0 + lo) as u8),
{
    proof {
        reveal(opcode_table);
    }
    match lo {
        0x0 => OpCode::new(OpCodeType::BEQ, AddressingMode::REL, 2),
        0x1 => OpCode::new(OpCodeType::SBC, AddressingMode::IZY, 5),
        0x2 => OpCode::new(OpCodeType::XXX, AddressingMode::IMP, 2),
        0x3 => OpCode::new(OpCodeType::XXX, AddressingMode::IMP, 8),
        0x4 => OpCode::new(OpCodeType::NOP, AddressingMode::IMP, 4),
        0x5 => OpCode::new(OpCodeType::SBC, AddressingMode::ZPX, 4),
        0x6 => OpCode::new(OpCodeType::INC, AddressingMode::ZPX, 6),
        0x7 => OpCode::new(OpCodeType::XXX, AddressingMode::IMP, 6),
        0x8 => OpCode::new(OpCodeType::SED, AddressingMode::IMP, 2),
        0x9 => OpCode::new(OpCodeType::SBC, AddressingMode::ABY, 4),
        0xA => OpCode::new(OpCodeType::NOP, AddressingMode::IMP, 2),
        0xB => OpCode::new(OpCodeType::XXX, AddressingMode::IMP, 7),
        0xC => OpCode::new(OpCodeType::NOP, AddressingMode::IMP, 4),
        0xD => OpCode::new(OpCodeType::SBC, AddressingMode::ABX, 4),
        0xE => OpCode::new(OpCodeType::INC, AddressingMode::ABX, 7),
        0xF => OpCode::new(OpCodeType::XXX, AddressingMode::IMP, 7),
        _ => OpCode::new(OpCodeType::XXX, AddressingMode::IMP, 7),
    }
}

impl From<u8> for OpCode {
    /// Decodes an opcode: the high nibble picks a row of the table, the low
    /// nibble an entry in it.
    fn from(raw: u8) -> (r: OpCode)
        ensures
            r == opcode_table(raw),
    {
        let hi = raw / 16;
        let lo = raw % 16;
        if hi == 0x0 {
            opcode_from_hi_0x0(lo)
        } else if hi == 0x1 {
            opcode_from_hi_0x1(lo)
        } else if hi == 0x2 {
            opcode_from_hi_0x2(lo)
        } else if hi == 0x3 {
            opcode_from_hi_0x3(lo)
        } else if hi == 0x4 {
            opcode_from_hi_0x4(lo)
        } else if hi == 0x5 {
            opcode_from_hi_0x5(lo)
        } else if hi == 0x6 {
            opcode_from_hi_0x6(lo)
        } else if hi == 0x7 {
            opcode_from_hi_0x7(lo)
        } else if hi == 0x8 {
            opcode_from_hi_0x8(lo)
        } else if hi == 0x9 {
            opcode_from_hi_0x9(lo)
        } else if hi == 0xA {
            opcode_from_hi_0x_a(lo)
        } else if hi == 0xB {
            opcode_from_hi_0x_b(lo)
        } else if hi == 0xC {
            opcode_from_hi_0x_c(lo)
        } else if hi == 0xD {
            opcode_from_hi_0x_d(lo)
        } else if hi == 0xE {
            opcode_from_hi_0x_e(lo)
        } else {
            opcode_from_hi_0x_f(lo)
        }
    }
}

impl vstd::std_specs::convert::FromSpecImpl<u8> for OpCode {
    open spec fn obeys_from_spec() -> bool {
        true
    }

    open spec fn from_spec(v: u8) -> OpCode {
        opcode_table(v)
    }
}

/// Every byte decodes to an entry whose base cost is between 2 and 8 cycles.
pub proof fn lemma_opcode_table_total(raw: u8)
    ensures
        2 <= opcode_table(raw).cycles <= 8,
{
    reveal(opcode_table);
}

} // verus!
