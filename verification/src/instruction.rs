//! The instruction table: a dense mapping from opcode to operation,
//! addressing mode and base cycle count, covering the 56 documented
//! operations of the NMOS 6502 across its 13 addressing modes.

use vstd::prelude::*;

verus! {

/// The 56 documented operations.
#[derive(Clone, Copy, Debug, PartialEq, Eq, Structural)]
pub enum Operation {
    ADC,
    AND,
    ASL,
    BCC,
    BCS,
    BEQ,
    BIT,
    BMI,
    BNE,
    BPL,
    BRK,
    BVC,
    BVS,
    CLC,
    CLD,
    CLI,
    CLV,
    CMP,
    CPX,
    CPY,
    DEC,
    DEX,
    DEY,
    EOR,
    INC,
    INX,
    INY,
    JMP,
    JSR,
    LDA,
    LDX,
    LDY,
    LSR,
    NOP,
    ORA,
    PHA,
    PHP,
    PLA,
    PLP,
    ROL,
    ROR,
    RTI,
    RTS,
    SBC,
    SEC,
    SED,
    SEI,
    STA,
    STX,
    STY,
    TAX,
    TAY,
    TSX,
    TXA,
    TXS,
    TYA,
}

/// The 13 addressing modes.
#[derive(Clone, Copy, Debug, PartialEq, Eq, Structural)]
pub enum AddressingMode {
    ACC,
    ABS,
    ABSX,
    ABSY,
    IMM,
    IMPL,
    IND,
    XIND,
    INDY,
    REL,
    ZPG,
    ZPGX,
    ZPGY,
}

/// One decoded instruction: its opcode byte, operation, addressing mode and
/// base cycle count.
#[derive(Clone, Copy, Debug, PartialEq, Eq, Structural)]
pub struct Instruction {
    pub opcode: u8,
    pub operation: Operation,
    pub mode: AddressingMode,
    pub cycles: u8,
}

/// Modes accepted by `CPUState::resolve_address`: those that name a location
/// in memory (or a branch target), as opposed to a register or no operand.
pub open spec fn is_address_mode(mode: AddressingMode) -> bool {
    match mode {
        AddressingMode::ZPG => true,
        AddressingMode::ZPGX => true,
        AddressingMode::ZPGY => true,
        AddressingMode::ABS => true,
        AddressingMode::ABSX => true,
        AddressingMode::ABSY => true,
        AddressingMode::IND => true,
        AddressingMode::XIND => true,
        AddressingMode::INDY => true,
        AddressingMode::REL => true,
        _ => false,
    }
}

/// Modes accepted by `CPUState::fetch_operand`: those that yield a byte value.
pub open spec fn is_value_mode(mode: AddressingMode) -> bool {
    match mode {
        AddressingMode::IMPL => false,
        AddressingMode::REL => false,
        _ => true,
    }
}

/// How many operand bytes follow the opcode in the instruction stream.
pub open spec fn operand_len(mode: AddressingMode) -> int {
    match mode {
        AddressingMode::ACC => 0,
        AddressingMode::IMPL => 0,
        AddressingMode::ABS => 2,
        AddressingMode::ABSX => 2,
        AddressingMode::ABSY => 2,
        AddressingMode::IND => 2,
        _ => 1,
    }
}

/// Total instruction length in bytes: the opcode plus its operand bytes.
pub open spec fn instruction_length(mode: AddressingMode) -> int {
    1 + operand_len(mode)
}

/// Which addressing modes may be paired with which operation; every entry of
/// the instruction table satisfies this, and it is exactly what the executor
/// needs of a decoded instruction.
pub open spec fn combo_ok(operation: Operation, mode: AddressingMode) -> bool {
    match operation {
        Operation::ADC => is_value_mode(mode),
        Operation::SBC => is_value_mode(mode),
        Operation::AND => is_value_mode(mode),
        Operation::ORA => is_value_mode(mode),
        Operation::EOR => is_value_mode(mode),
        Operation::LDA => is_value_mode(mode),
        Operation::LDX => is_value_mode(mode),
        Operation::LDY => is_value_mode(mode),
        Operation::CMP => is_value_mode(mode),
        Operation::CPX => is_value_mode(mode),
        Operation::CPY => is_value_mode(mode),
        Operation::BIT => is_value_mode(mode),
        Operation::ASL => mode == AddressingMode::ACC || is_address_mode(mode),
        Operation::LSR => mode == AddressingMode::ACC || is_address_mode(mode),
        Operation::ROL => mode == AddressingMode::ACC || is_address_mode(mode),
        Operation::ROR => mode == AddressingMode::ACC || is_address_mode(mode),
        Operation::STA => is_address_mode(mode),
        Operation::STX => is_address_mode(mode),
        Operation::STY => is_address_mode(mode),
        Operation::INC => is_address_mode(mode),
        Operation::DEC => is_address_mode(mode),
        Operation::JMP => is_address_mode(mode),
        Operation::JSR => is_address_mode(mode),
        Operation::BCC => mode == AddressingMode::REL,
        Operation::BCS => mode == AddressingMode::REL,
        Operation::BEQ => mode == AddressingMode::REL,
        Operation::BMI => mode == AddressingMode::REL,
        Operation::BNE => mode == AddressingMode::REL,
        Operation::BPL => mode == AddressingMode::REL,
        Operation::BVC => mode == AddressingMode::REL,
        Operation::BVS => mode == AddressingMode::REL,
        _ => mode == AddressingMode::IMPL,
    }
}

/// Helper for the table: one entry.
pub open spec fn some_instr(
    opcode: u8,
    operation: Operation,
    mode: AddressingMode,
    cycles: u8,
) -> Option<Instruction> {
    Some(Instruction { opcode, operation, mode, cycles })
}

/// The instruction table as a specification: `None` for the undocumented
/// opcodes, which the CPU treats as a fatal decode error.
pub open spec fn decode(opcode: u8) -> Option<Instruction> {
    match opcode {
        0x00 => some_instr(0x00, Operation::BRK, AddressingMode::IMPL, 7),
        0x01 => some_instr(0x01, Operation::ORA, AddressingMode::XIND, 6),
        0x05 => some_instr(0x05, Operation::ORA, AddressingMode::ZPG, 3),
        0x06 => some_instr(0x06, Operation::ASL, AddressingMode::ZPG, 5),
        0x08 => some_instr(0x08, Operation::PHP, AddressingMode::IMPL, 3),
        0x09 => some_instr(0x09, Operation::ORA, AddressingMode::IMM, 2),
        0x0A => some_instr(0x0A, Operation::ASL, AddressingMode::ACC, 2),
        0x0D => some_instr(0x0D, Operation::ORA, AddressingMode::ABS, 4),
        0x0E => some_instr(0x0E, Operation::ASL, AddressingMode::ABS, 6),
        0x10 => some_instr(0x10, Operation::BPL, AddressingMode::REL, 2),
        0x11 => some_instr(0x11, Operation::ORA, AddressingMode::INDY, 5),
        0x15 => some_instr(0x15, Operation::ORA, AddressingMode::ZPGX, 4),
        0x16 => some_instr(0x16, Operation::ASL, AddressingMode::ZPGX, 6),
        0x18 => some_instr(0x18, Operation::CLC, AddressingMode::IMPL, 2),
        0x19 => some_instr(0x19, Operation::ORA, AddressingMode::ABSY, 4),
        0x1D => some_instr(0x1D, Operation::ORA, AddressingMode::ABSX, 4),
        0x1E => some_instr(0x1E, Operation::ASL, AddressingMode::ABSX, 7),
        0x20 => some_instr(0x20, Operation::JSR, AddressingMode::ABS, 6),
        0x21 => some_instr(0x21, Operation::AND, AddressingMode::XIND, 6),
        0x24 => some_instr(0x24, Operation::BIT, AddressingMode::ZPG, 3),
        0x25 => some_instr(0x25, Operation::AND, AddressingMode::ZPG, 3),
        0x26 => some_instr(0x26, Operation::ROL, AddressingMode::ZPG, 5),
        0x28 => some_instr(0x28, Operation::PLP, AddressingMode::IMPL, 4),
        0x29 => some_instr(0x29, Operation::AND, AddressingMode::IMM, 2),
        0x2A => some_instr(0x2A, Operation::ROL, AddressingMode::ACC, 2),
        0x2C => some_instr(0x2C, Operation::BIT, AddressingMode::ABS, 4),
        0x2D => some_instr(0x2D, Operation::AND, AddressingMode::ABS, 4),
        0x2E => some_instr(0x2E, Operation::ROL, AddressingMode::ABS, 6),
        0x30 => some_instr(0x30, Operation::BMI, AddressingMode::REL, 2),
        0x31 => some_instr(0x31, Operation::AND, AddressingMode::INDY, 5),
        0x35 => some_instr(0x35, Operation::AND, AddressingMode::ZPGX, 4),
        0x36 => some_instr(0x36, Operation::ROL, AddressingMode::ZPGX, 6),
        0x38 => some_instr(0x38, Operation::SEC, AddressingMode::IMPL, 2),
        0x39 => some_instr(0x39, Operation::AND, AddressingMode::ABSY, 4),
        0x3D => some_instr(0x3D, Operation::AND, AddressingMode::ABSX, 4),
        0x3E => some_instr(0x3E, Operation::ROL, AddressingMode::ABSX, 7),
        0x40 => some_instr(0x40, Operation::RTI, AddressingMode::IMPL, 6),
        0x41 => some_instr(0x41, Operation::EOR, AddressingMode::XIND, 6),
        0x45 => some_instr(0x45, Operation::EOR, AddressingMode::ZPG, 3),
        0x46 => some_instr(0x46, Operation::LSR, AddressingMode::ZPG, 5),
        0x48 => some_instr(0x48, Operation::PHA, AddressingMode::IMPL, 3),
        0x49 => some_instr(0x49, Operation::EOR, AddressingMode::IMM, 2),
        0x4A => some_instr(0x4A, Operation::LSR, AddressingMode::ACC, 2),
        0x4C => some_instr(0x4C, Operation::JMP, AddressingMode::ABS, 3),
        0x4D => some_instr(0x4D, Operation::EOR, AddressingMode::ABS, 4),
        0x4E => some_instr(0x4E, Operation::LSR, AddressingMode::ABS, 6),
        0x50 => some_instr(0x50, Operation::BVC, AddressingMode::REL, 2),
        0x51 => some_instr(0x51, Operation::EOR, AddressingMode::INDY, 5),
        0x55 => some_instr(0x55, Operation::EOR, AddressingMode::ZPGX, 4),
        0x56 => some_instr(0x56, Operation::LSR, AddressingMode::ZPGX, 6),
        0x58 => some_instr(0x58, Operation::CLI, AddressingMode::IMPL, 2),
        0x59 => some_instr(0x59, Operation::EOR, AddressingMode::ABSY, 4),
        0x5D => some_instr(0x5D, Operation::EOR, AddressingMode::ABSX, 4),
        0x5E => some_instr(0x5E, Operation::LSR, AddressingMode::ABSX, 7),
        0x60 => some_instr(0x60, Operation::RTS, AddressingMode::IMPL, 6),
        0x61 => some_instr(0x61, Operation::ADC, AddressingMode::XIND, 6),
        0x65 => some_instr(0x65, Operation::ADC, AddressingMode::ZPG, 3),
        0x66 => some_instr(0x66, Operation::ROR, AddressingMode::ZPG, 5),
        0x68 => some_instr(0x68, Operation::PLA, AddressingMode::IMPL, 4),
        0x69 => some_instr(0x69, Operation::ADC, AddressingMode::IMM, 2),
        0x6A => some_instr(0x6A, Operation::ROR, AddressingMode::ACC, 2),
        0x6C => some_instr(0x6C, Operation::JMP, AddressingMode::IND, 5),
        0x6D => some_instr(0x6D, Operation::ADC, AddressingMode::ABS, 4),
        0x6E => some_instr(0x6E, Operation::ROR, AddressingMode::ABS, 6),
        0x70 => some_instr(0x70, Operation::BVS, AddressingMode::REL, 2),
        0x71 => some_instr(0x71, Operation::ADC, AddressingMode::INDY, 5),
        0x75 => some_instr(0x75, Operation::ADC, AddressingMode::ZPGX, 4),
        0x76 => some_instr(0x76, Operation::ROR, AddressingMode::ZPGX, 6),
        0x78 => some_instr(0x78, Operation::SEI, AddressingMode::IMPL, 2),
        0x79 => some_instr(0x79, Operation::ADC, AddressingMode::ABSY, 4),
        0x7D => some_instr(0x7D, Operation::ADC, AddressingMode::ABSX, 4),
        0x7E => some_instr(0x7E, Operation::ROR, AddressingMode::ABSX, 7),
        0x81 => some_instr(0x81, Operation::STA, AddressingMode::XIND, 6),
        0x84 => some_instr(0x84, Operation::STY, AddressingMode::ZPG, 3),
        0x85 => some_instr(0x85, Operation::STA, AddressingMode::ZPG, 3),
        0x86 => some_instr(0x86, Operation::STX, AddressingMode::ZPG, 3),
        0x88 => some_instr(0x88, Operation::DEY, AddressingMode::IMPL, 2),
        0x8A => some_instr(0x8A, Operation::TXA, AddressingMode::IMPL, 2),
        0x8C => some_instr(0x8C, Operation::STY, AddressingMode::ABS, 4),
        0x8D => some_instr(0x8D, Operation::STA, AddressingMode::ABS, 4),
        0x8E => some_instr(0x8E, Operation::STX, AddressingMode::ABS, 4),
        0x90 => some_instr(0x90, Operation::BCC, AddressingMode::REL, 2),
        0x91 => some_instr(0x91, Operation::STA, AddressingMode::INDY, 6),
        0x94 => some_instr(0x94, Operation::STY, AddressingMode::ZPGX, 4),
        0x95 => some_instr(0x95, Operation::STA, AddressingMode::ZPGX, 4),
        0x96 => some_instr(0x96, Operation::STX, AddressingMode::ZPGY, 4),
        0x98 => some_instr(0x98, Operation::TYA, AddressingMode::IMPL, 2),
        0x99 => some_instr(0x99, Operation::STA, AddressingMode::ABSY, 5),
        0x9A => some_instr(0x9A, Operation::TXS, AddressingMode::IMPL, 2),
        0x9D => some_instr(0x9D, Operation::STA, AddressingMode::ABSX, 5),
        0xA0 => some_instr(0xA0, Operation::LDY, AddressingMode::IMM, 2),
        0xA1 => some_instr(0xA1, Operation::LDA, AddressingMode::XIND, 6),
        0xA2 => some_instr(0xA2, Operation::LDX, AddressingMode::IMM, 2),
        0xA4 => some_instr(0xA4, Operation::LDY, AddressingMode::ZPG, 3),
        0xA5 => some_instr(0xA5, Operation::LDA, AddressingMode::ZPG, 3),
        0xA6 => some_instr(0xA6, Operation::LDX, AddressingMode::ZPG, 3),
        0xA8 => some_instr(0xA8, Operation::TAY, AddressingMode::IMPL, 2),
        0xA9 => some_instr(0xA9, Operation::LDA, AddressingMode::IMM, 2),
        0xAA => some_instr(0xAA, Operation::TAX, AddressingMode::IMPL, 2),
        0xAC => some_instr(0xAC, Operation::LDY, AddressingMode::ABS, 4),
        0xAD => some_instr(0xAD, Operation::LDA, AddressingMode::ABS, 4),
        0xAE => some_instr(0xAE, Operation::LDX, AddressingMode::ABS, 4),
        0xB0 => some_instr(0xB0, Operation::BCS, AddressingMode::REL, 2),
        0xB1 => some_instr(0xB1, Operation::LDA, AddressingMode::INDY, 5),
        0xB4 => some_instr(0xB4, Operation::LDY, AddressingMode::ZPGX, 4),
        0xB5 => some_instr(0xB5, Operation::LDA, AddressingMode::ZPGX, 4),
        0xB6 => some_instr(0xB6, Operation::LDX, AddressingMode::ZPGY, 4),
        0xB8 => some_instr(0xB8, Operation::CLV, AddressingMode::IMPL, 2),
        0xB9 => some_instr(0xB9, Operation::LDA, AddressingMode::ABSY, 4),
        0xBA => some_instr(0xBA, Operation::TSX, AddressingMode::IMPL, 2),
        0xBC => some_instr(0xBC, Operation::LDY, AddressingMode::ABSX, 4),
        0xBD => some_instr(0xBD, Operation::LDA, AddressingMode::ABSX, 4),
        0xBE => some_instr(0xBE, Operation::LDX, AddressingMode::ABSY, 4),
        0xC0 => some_instr(0xC0, Operation::CPY, AddressingMode::IMM, 2),
        0xC1 => some_instr(0xC1, Operation::CMP, AddressingMode::XIND, 6),
        0xC4 => some_instr(0xC4, Operation::CPY, AddressingMode::ZPG, 3),
        0xC5 => some_instr(0xC5, Operation::CMP, AddressingMode::ZPG, 3),
        0xC6 => some_instr(0xC6, Operation::DEC, AddressingMode::ZPG, 5),
        0xC8 => some_instr(0xC8, Operation::INY, AddressingMode::IMPL, 2),
        0xC9 => some_instr(0xC9, Operation::CMP, AddressingMode::IMM, 2),
        0xCA => some_instr(0xCA, Operation::DEX, AddressingMode::IMPL, 2),
        0xCC => some_instr(0xCC, Operation::CPY, AddressingMode::ABS, 4),
        0xCD => some_instr(0xCD, Operation::CMP, AddressingMode::ABS, 4),
        0xCE => some_instr(0xCE, Operation::DEC, AddressingMode::ABS, 6),
        0xD0 => some_instr(0xD0, Operation::BNE, AddressingMode::REL, 2),
        0xD1 => some_instr(0xD1, Operation::CMP, AddressingMode::INDY, 5),
        0xD5 => some_instr(0xD5, Operation::CMP, AddressingMode::ZPGX, 4),
        0xD6 => some_instr(0xD6, Operation::DEC, AddressingMode::ZPGX, 6),
        0xD8 => some_instr(0xD8, Operation::CLD, AddressingMode::IMPL, 2),
        0xD9 => some_instr(0xD9, Operation::CMP, AddressingMode::ABSY, 4),
        0xDD => some_instr(0xDD, Operation::CMP, AddressingMode::ABSX, 4),
        0xDE => some_instr(0xDE, Operation::DEC, AddressingMode::ABSX, 7),
        0xE0 => some_instr(0xE0, Operation::CPX, AddressingMode::IMM, 2),
        0xE1 => some_instr(0xE1, Operation::SBC, AddressingMode::XIND, 6),
        0xE4 => some_instr(0xE4, Operation::CPX, AddressingMode::ZPG, 3),
        0xE5 => some_instr(0xE5, Operation::SBC, AddressingMode::ZPG, 3),
        0xE6 => some_instr(0xE6, Operation::INC, AddressingMode::ZPG, 5),
        0xE8 => some_instr(0xE8, Operation::INX, AddressingMode::IMPL, 2),
        0xE9 => some_instr(0xE9, Operation::SBC, AddressingMode::IMM, 2),
        0xEA => some_instr(0xEA, Operation::NOP, AddressingMode::IMPL, 2),
        0xEC => some_instr(0xEC, Operation::CPX, AddressingMode::ABS, 4),
        0xED => some_instr(0xED, Operation::SBC, AddressingMode::ABS, 4),
        0xEE => some_instr(0xEE, Operation::INC, AddressingMode::ABS, 6),
        0xF0 => some_instr(0xF0, Operation::BEQ, AddressingMode::REL, 2),
        0xF1 => some_instr(0xF1, Operation::SBC, AddressingMode::INDY, 5),
        0xF5 => some_instr(0xF5, Operation::SBC, AddressingMode::ZPGX, 4),
        0xF6 => some_instr(0xF6, Operation::INC, AddressingMode::ZPGX, 6),
        0xF8 => some_instr(0xF8, Operation::SED, AddressingMode::IMPL, 2),
        0xF9 => some_instr(0xF9, Operation::SBC, AddressingMode::ABSY, 4),
        0xFD => some_instr(0xFD, Operation::SBC, AddressingMode::ABSX, 4),
        0xFE => some_instr(0xFE, Operation::INC, AddressingMode::ABSX, 7),
        _ => None,
    }
}

/// Exec-level entry constructor, matching `some_instr`.
fn mk(opcode: u8, operation: Operation, mode: AddressingMode, cycles: u8) -> (r: Option<
    Instruction,
>)
    ensures
        r == some_instr(opcode, operation, mode, cycles),
{
    Some(Instruction { opcode, operation, mode, cycles })
}

/// Look an opcode up in the instruction table.
///
/// Returns `None` for an undocumented opcode.  Every recognized entry pairs
/// its operation with an addressing mode the executor accepts (`combo_ok`)
/// and costs at least two base cycles.
pub fn opcode_to_instruction(opcode: u8) -> (r: Option<Instruction>)
    ensures
        r == decode(opcode),
        r matches Some(i) ==> i.opcode == opcode && combo_ok(i.operation, i.mode) && 2 <= i.cycles
            <= 7,
{
    match opcode {
        0x00 => mk(0x00, Operation::BRK, AddressingMode::IMPL, 7),
        0x01 => mk(0x01, Operation::ORA, AddressingMode::XIND, 6),
        0x05 => mk(0x05, Operation::ORA, AddressingMode::ZPG, 3),
        0x06 => mk(0x06, Operation::ASL, AddressingMode::ZPG, 5),
        0x08 => mk(0x08, Operation::PHP, AddressingMode::IMPL, 3),
        0x09 => mk(0x09, Operation::ORA, AddressingMode::IMM, 2),
        0x0A => mk(0x0A, Operation::ASL, AddressingMode::ACC, 2),
        0x0D => mk(0x0D, Operation::ORA, AddressingMode::ABS, 4),
        0x0E => mk(0x0E, Operation::ASL, AddressingMode::ABS, 6),
        0x10 => mk(0x10, Operation::BPL, AddressingMode::REL, 2),
        0x11 => mk(0x11, Operation::ORA, AddressingMode::INDY, 5),
        0x15 => mk(0x15, Operation::ORA, AddressingMode::ZPGX, 4),
        0x16 => mk(0x16, Operation::ASL, AddressingMode::ZPGX, 6),
        0x18 => mk(0x18, Operation::CLC, AddressingMode::IMPL, 2),
        0x19 => mk(0x19, Operation::ORA, AddressingMode::ABSY, 4),
        0x1D => mk(0x1D, Operation::ORA, AddressingMode::ABSX, 4),
        0x1E => mk(0x1E, Operation::ASL, AddressingMode::ABSX, 7),
        0x20 => mk(0x20, Operation::JSR, AddressingMode::ABS, 6),
        0x21 => mk(0x21, Operation::AND, AddressingMode::XIND, 6),
        0x24 => mk(0x24, Operation::BIT, AddressingMode::ZPG, 3),
        0x25 => mk(0x25, Operation::AND, AddressingMode::ZPG, 3),
        0x26 => mk(0x26, Operation::ROL, AddressingMode::ZPG, 5),
        0x28 => mk(0x28, Operation::PLP, AddressingMode::IMPL, 4),
        0x29 => mk(0x29, Operation::AND, AddressingMode::IMM, 2),
        0x2A => mk(0x2A, Operation::ROL, AddressingMode::ACC, 2),
        0x2C => mk(0x2C, Operation::BIT, AddressingMode::ABS, 4),
        0x2D => mk(0x2D, Operation::AND, AddressingMode::ABS, 4),
        0x2E => mk(0x2E, Operation::ROL, AddressingMode::ABS, 6),
        0x30 => mk(0x30, Operation::BMI, AddressingMode::REL, 2),
        0x31 => mk(0x31, Operation::AND, AddressingMode::INDY, 5),
        0x35 => mk(0x35, Operation::AND, AddressingMode::ZPGX, 4),
        0x36 => mk(0x36, Operation::ROL, AddressingMode::ZPGX, 6),
        0x38 => mk(0x38, Operation::SEC, AddressingMode::IMPL, 2),
        0x39 => mk(0x39, Operation::AND, AddressingMode::ABSY, 4),
        0x3D => mk(0x3D, Operation::AND, AddressingMode::ABSX, 4),
        0x3E => mk(0x3E, Operation::ROL, AddressingMode::ABSX, 7),
        0x40 => mk(0x40, Operation::RTI, AddressingMode::IMPL, 6),
        0x41 => mk(0x41, Operation::EOR, AddressingMode::XIND, 6),
        0x45 => mk(0x45, Operation::EOR, AddressingMode::ZPG, 3),
        0x46 => mk(0x46, Operation::LSR, AddressingMode::ZPG, 5),
        0x48 => mk(0x48, Operation::PHA, AddressingMode::IMPL, 3),
        0x49 => mk(0x49, Operation::EOR, AddressingMode::IMM, 2),
        0x4A => mk(0x4A, Operation::LSR, AddressingMode::ACC, 2),
        0x4C => mk(0x4C, Operation::JMP, AddressingMode::ABS, 3),
        0x4D => mk(0x4D, Operation::EOR, AddressingMode::ABS, 4),
        0x4E => mk(0x4E, Operation::LSR, AddressingMode::ABS, 6),
        0x50 => mk(0x50, Operation::BVC, AddressingMode::REL, 2),
        0x51 => mk(0x51, Operation::EOR, AddressingMode::INDY, 5),
        0x55 => mk(0x55, Operation::EOR, AddressingMode::ZPGX, 4),
        0x56 => mk(0x56, Operation::LSR, AddressingMode::ZPGX, 6),
        0x58 => mk(0x58, Operation::CLI, AddressingMode::IMPL, 2),
        0x59 => mk(0x59, Operation::EOR, AddressingMode::ABSY, 4),
        0x5D => mk(0x5D, Operation::EOR, AddressingMode::ABSX, 4),
        0x5E => mk(0x5E, Operation::LSR, AddressingMode::ABSX, 7),
        0x60 => mk(0x60, Operation::RTS, AddressingMode::IMPL, 6),
        0x61 => mk(0x61, Operation::ADC, AddressingMode::XIND, 6),
        0x65 => mk(0x65, Operation::ADC, AddressingMode::ZPG, 3),
        0x66 => mk(0x66, Operation::ROR, AddressingMode::ZPG, 5),
        0x68 => mk(0x68, Operation::PLA, AddressingMode::IMPL, 4),
        0x69 => mk(0x69, Operation::ADC, AddressingMode::IMM, 2),
        0x6A => mk(0x6A, Operation::ROR, AddressingMode::ACC, 2),
        0x6C => mk(0x6C, Operation::JMP, AddressingMode::IND, 5),
        0x6D => mk(0x6D, Operation::ADC, AddressingMode::ABS, 4),
        0x6E => mk(0x6E, Operation::ROR, AddressingMode::ABS, 6),
        0x70 => mk(0x70, Operation::BVS, AddressingMode::REL, 2),
        0x71 => mk(0x71, Operation::ADC, AddressingMode::INDY, 5),
        0x75 => mk(0x75, Operation::ADC, AddressingMode::ZPGX, 4),
        0x76 => mk(0x76, Operation::ROR, AddressingMode::ZPGX, 6),
        0x78 => mk(0x78, Operation::SEI, AddressingMode::IMPL, 2),
        0x79 => mk(0x79, Operation::ADC, AddressingMode::ABSY, 4),
        0x7D => mk(0x7D, Operation::ADC, AddressingMode::ABSX, 4),
        0x7E => mk(0x7E, Operation::ROR, AddressingMode::ABSX, 7),
        0x81 => mk(0x81, Operation::STA, AddressingMode::XIND, 6),
        0x84 => mk(0x84, Operation::STY, AddressingMode::ZPG, 3),
        0x85 => mk(0x85, Operation::STA, AddressingMode::ZPG, 3),
        0x86 => mk(0x86, Operation::STX, AddressingMode::ZPG, 3),
        0x88 => mk(0x88, Operation::DEY, AddressingMode::IMPL, 2),
        0x8A => mk(0x8A, Operation::TXA, AddressingMode::IMPL, 2),
        0x8C => mk(0x8C, Operation::STY, AddressingMode::ABS, 4),
        0x8D => mk(0x8D, Operation::STA, AddressingMode::ABS, 4),
        0x8E => mk(0x8E, Operation::STX, AddressingMode::ABS, 4),
        0x90 => mk(0x90, Operation::BCC, AddressingMode::REL, 2),
        0x91 => mk(0x91, Operation::STA, AddressingMode::INDY, 6),
        0x94 => mk(0x94, Operation::STY, AddressingMode::ZPGX, 4),
        0x95 => mk(0x95, Operation::STA, AddressingMode::ZPGX, 4),
        0x96 => mk(0x96, Operation::STX, AddressingMode::ZPGY, 4),
        0x98 => mk(0x98, Operation::TYA, AddressingMode::IMPL, 2),
        0x99 => mk(0x99, Operation::STA, AddressingMode::ABSY, 5),
        0x9A => mk(0x9A, Operation::TXS, AddressingMode::IMPL, 2),
        0x9D => mk(0x9D, Operation::STA, AddressingMode::ABSX, 5),
        0xA0 => mk(0xA0, Operation::LDY, AddressingMode::IMM, 2),
        0xA1 => mk(0xA1, Operation::LDA, AddressingMode::XIND, 6),
        0xA2 => mk(0xA2, Operation::LDX, AddressingMode::IMM, 2),
        0xA4 => mk(0xA4, Operation::LDY, AddressingMode::ZPG, 3),
        0xA5 => mk(0xA5, Operation::LDA, AddressingMode::ZPG, 3),
        0xA6 => mk(0xA6, Operation::LDX, AddressingMode::ZPG, 3),
        0xA8 => mk(0xA8, Operation::TAY, AddressingMode::IMPL, 2),
        0xA9 => mk(0xA9, Operation::LDA, AddressingMode::IMM, 2),
        0xAA => mk(0xAA, Operation::TAX, AddressingMode::IMPL, 2),
        0xAC => mk(0xAC, Operation::LDY, AddressingMode::ABS, 4),
        0xAD => mk(0xAD, Operation::LDA, AddressingMode::ABS, 4),
        0xAE => mk(0xAE, Operation::LDX, AddressingMode::ABS, 4),
        0xB0 => mk(0xB0, Operation::BCS, AddressingMode::REL, 2),
        0xB1 => mk(0xB1, Operation::LDA, AddressingMode::INDY, 5),
        0xB4 => mk(0xB4, Operation::LDY, AddressingMode::ZPGX, 4),
        0xB5 => mk(0xB5, Operation::LDA, AddressingMode::ZPGX, 4),
        0xB6 => mk(0xB6, Operation::LDX, AddressingMode::ZPGY, 4),
        0xB8 => mk(0xB8, Operation::CLV, AddressingMode::IMPL, 2),
        0xB9 => mk(0xB9, Operation::LDA, AddressingMode::ABSY, 4),
        0xBA => mk(0xBA, Operation::TSX, AddressingMode::IMPL, 2),
        0xBC => mk(0xBC, Operation::LDY, AddressingMode::ABSX, 4),
        0xBD => mk(0xBD, Operation::LDA, AddressingMode::ABSX, 4),
        0xBE => mk(0xBE, Operation::LDX, AddressingMode::ABSY, 4),
        0xC0 => mk(0xC0, Operation::CPY, AddressingMode::IMM, 2),
        0xC1 => mk(0xC1, Operation::CMP, AddressingMode::XIND, 6),
        0xC4 => mk(0xC4, Operation::CPY, AddressingMode::ZPG, 3),
        0xC5 => mk(0xC5, Operation::CMP, AddressingMode::ZPG, 3),
        0xC6 => mk(0xC6, Operation::DEC, AddressingMode::ZPG, 5),
        0xC8 => mk(0xC8, Operation::INY, AddressingMode::IMPL, 2),
        0xC9 => mk(0xC9, Operation::CMP, AddressingMode::IMM, 2),
        0xCA => mk(0xCA, Operation::DEX, AddressingMode::IMPL, 2),
        0xCC => mk(0xCC, Operation::CPY, AddressingMode::ABS, 4),
        0xCD => mk(0xCD, Operation::CMP, AddressingMode::ABS, 4),
        0xCE => mk(0xCE, Operation::DEC, AddressingMode::ABS, 6),
        0xD0 => mk(0xD0, Operation::BNE, AddressingMode::REL, 2),
        0xD1 => mk(0xD1, Operation::CMP, AddressingMode::INDY, 5),
        0xD5 => mk(0xD5, Operation::CMP, AddressingMode::ZPGX, 4),
        0xD6 => mk(0xD6, Operation::DEC, AddressingMode::ZPGX, 6),
        0xD8 => mk(0xD8, Operation::CLD, AddressingMode::IMPL, 2),
        0xD9 => mk(0xD9, Operation::CMP, AddressingMode::ABSY, 4),
        0xDD => mk(0xDD, Operation::CMP, AddressingMode::ABSX, 4),
        0xDE => mk(0xDE, Operation::DEC, AddressingMode::ABSX, 7),
        0xE0 => mk(0xE0, Operation::CPX, AddressingMode::IMM, 2),
        0xE1 => mk(0xE1, Operation::SBC, AddressingMode::XIND, 6),
        0xE4 => mk(0xE4, Operation::CPX, AddressingMode::ZPG, 3),
        0xE5 => mk(0xE5, Operation::SBC, AddressingMode::ZPG, 3),
        0xE6 => mk(0xE6, Operation::INC, AddressingMode::ZPG, 5),
        0xE8 => mk(0xE8, Operation::INX, AddressingMode::IMPL, 2),
        0xE9 => mk(0xE9, Operation::SBC, AddressingMode::IMM, 2),
        0xEA => mk(0xEA, Operation::NOP, AddressingMode::IMPL, 2),
        0xEC => mk(0xEC, Operation::CPX, AddressingMode::ABS, 4),
        0xED => mk(0xED, Operation::SBC, AddressingMode::ABS, 4),
        0xEE => mk(0xEE, Operation::INC, AddressingMode::ABS, 6),
        0xF0 => mk(0xF0, Operation::BEQ, AddressingMode::REL, 2),
        0xF1 => mk(0xF1, Operation::SBC, AddressingMode::INDY, 5),
        0xF5 => mk(0xF5, Operation::SBC, AddressingMode::ZPGX, 4),
        0xF6 => mk(0xF6, Operation::INC, AddressingMode::ZPGX, 6),
        0xF8 => mk(0xF8, Operation::SED, AddressingMode::IMPL, 2),
        0xF9 => mk(0xF9, Operation::SBC, AddressingMode::ABSY, 4),
        0xFD => mk(0xFD, Operation::SBC, AddressingMode::ABSX, 4),
        0xFE => mk(0xFE, Operation::INC, AddressingMode::ABSX, 7),
        _ => None,
    }
}

} // verus!
