//! Per-step trace records used for diagnostics and golden-trace testing.

use vstd::prelude::*;

use vstd::string::*;

use crate::instruction::AddressingMode;
use crate::instruction::Instruction;
use crate::instruction::Operation;
use crate::state::sext8;
use crate::state::w16;
use crate::state::w8;

verus! {

/// A snapshot of one executed instruction: the PC it was fetched from, the
/// registers after it completed, the decoded instruction, and the raw bytes
/// found at the operand position (never the resolved address).
#[derive(Clone, Copy, Debug)]
pub struct Trace {
    pub pc: u16,
    pub a: u8,
    pub x: u8,
    pub y: u8,
    pub sp: u8,
    pub sr: u8,
    pub instruction: Instruction,
    pub operand: Option<u16>,
}

impl Trace {
    pub fn new(
        pc: u16,
        a: u8,
        x: u8,
        y: u8,
        sp: u8,
        sr: u8,
        instruction: Instruction,
        operand: Option<u16>,
    ) -> (r: Trace)
        ensures
            r.pc == pc && r.a == a && r.x == x && r.y == y && r.sp == sp && r.sr == sr
                && r.instruction == instruction && r.operand == operand,
    {
        Trace { pc, a, x, y, sp, sr, instruction, operand }
    }
}

/// The character for one hexadecimal digit value, upper case.
pub open spec fn hex_char(n: int) -> char {
    if n == 0 {
        '0'
    } else if n == 1 {
        '1'
    } else if n == 2 {
        '2'
    } else if n == 3 {
        '3'
    } else if n == 4 {
        '4'
    } else if n == 5 {
        '5'
    } else if n == 6 {
        '6'
    } else if n == 7 {
        '7'
    } else if n == 8 {
        '8'
    } else if n == 9 {
        '9'
    } else if n == 10 {
        'A'
    } else if n == 11 {
        'B'
    } else if n == 12 {
        'C'
    } else if n == 13 {
        'D'
    } else if n == 14 {
        'E'
    } else {
        'F'
    }
}

/// A byte as two hexadecimal digits.
pub open spec fn spec_hex2(v: u8) -> Seq<char> {
    seq![hex_char((v / 16) as int), hex_char((v % 16) as int)]
}

/// A word as four hexadecimal digits.
pub open spec fn spec_hex4(v: u16) -> Seq<char> {
    seq![
        hex_char((v / 0x1000) as int),
        hex_char(((v / 0x100) % 16) as int),
        hex_char(((v / 16) % 16) as int),
        hex_char((v % 16) as int),
    ]
}

/// A value printed as at least two hexadecimal digits, zero-padded, with
/// more digits only where the value needs them.
pub open spec fn spec_hex_min2(v: u16) -> Seq<char> {
    if v < 0x100 {
        spec_hex2(v as u8)
    } else if v < 0x1000 {
        seq![hex_char((v / 0x100) as int)] + spec_hex2((v % 0x100) as u8)
    } else {
        spec_hex4(v)
    }
}

/// The conventional mnemonic of an operation.
pub open spec fn op_name(operation: Operation) -> Seq<char> {
    match operation {
        Operation::ADC => "ADC"@,
        Operation::AND => "AND"@,
        Operation::ASL => "ASL"@,
        Operation::BCC => "BCC"@,
        Operation::BCS => "BCS"@,
        Operation::BEQ => "BEQ"@,
        Operation::BIT => "BIT"@,
        Operation::BMI => "BMI"@,
        Operation::BNE => "BNE"@,
        Operation::BPL => "BPL"@,
        Operation::BRK => "BRK"@,
        Operation::BVC => "BVC"@,
        Operation::BVS => "BVS"@,
        Operation::CLC => "CLC"@,
        Operation::CLD => "CLD"@,
        Operation::CLI => "CLI"@,
        Operation::CLV => "CLV"@,
        Operation::CMP => "CMP"@,
        Operation::CPX => "CPX"@,
        Operation::CPY => "CPY"@,
        Operation::DEC => "DEC"@,
        Operation::DEX => "DEX"@,
        Operation::DEY => "DEY"@,
        Operation::EOR => "EOR"@,
        Operation::INC => "INC"@,
        Operation::INX => "INX"@,
        Operation::INY => "INY"@,
        Operation::JMP => "JMP"@,
        Operation::JSR => "JSR"@,
        Operation::LDA => "LDA"@,
        Operation::LDX => "LDX"@,
        Operation::LDY => "LDY"@,
        Operation::LSR => "LSR"@,
        Operation::NOP => "NOP"@,
        Operation::ORA => "ORA"@,
        Operation::PHA => "PHA"@,
        Operation::PHP => "PHP"@,
        Operation::PLA => "PLA"@,
        Operation::PLP => "PLP"@,
        Operation::ROL => "ROL"@,
        Operation::ROR => "ROR"@,
        Operation::RTI => "RTI"@,
        Operation::RTS => "RTS"@,
        Operation::SBC => "SBC"@,
        Operation::SEC => "SEC"@,
        Operation::SED => "SED"@,
        Operation::SEI => "SEI"@,
        Operation::STA => "STA"@,
        Operation::STX => "STX"@,
        Operation::STY => "STY"@,
        Operation::TAX => "TAX"@,
        Operation::TAY => "TAY"@,
        Operation::TSX => "TSX"@,
        Operation::TXA => "TXA"@,
        Operation::TXS => "TXS"@,
        Operation::TYA => "TYA"@,
    }
}

fn hex_digit(n: u8) -> (r: &'static str)
    requires
        n < 16,
    ensures
        r@ =~= seq![hex_char(n as int)],
{
    let r: &'static str = match n {
        0 => "0",
        1 => "1",
        2 => "2",
        3 => "3",
        4 => "4",
        5 => "5",
        6 => "6",
        7 => "7",
        8 => "8",
        9 => "9",
        10 => "A",
        11 => "B",
        12 => "C",
        13 => "D",
        14 => "E",
        _ => "F",
    };
    proof {
        reveal_strlit("0");
        reveal_strlit("1");
        reveal_strlit("2");
        reveal_strlit("3");
        reveal_strlit("4");
        reveal_strlit("5");
        reveal_strlit("6");
        reveal_strlit("7");
        reveal_strlit("8");
        reveal_strlit("9");
        reveal_strlit("A");
        reveal_strlit("B");
        reveal_strlit("C");
        reveal_strlit("D");
        reveal_strlit("E");
        reveal_strlit("F");
    }
    r
}

/// A byte as two upper-case hexadecimal digits.
pub fn format_hex_byte(v: u8) -> (r: String)
    ensures
        r@ == spec_hex2(v),
{
    let mut s = String::from_str(hex_digit(v / 16));
    s.append(hex_digit(v % 16));
    proof {
        assert(s@ =~= spec_hex2(v));
    }
    s
}

/// A word as four upper-case hexadecimal digits.
pub fn format_hex_word(v: u16) -> (r: String)
    ensures
        r@ == spec_hex4(v),
{
    let mut s = String::from_str(hex_digit((v / 0x1000) as u8));
    s.append(hex_digit(((v / 0x100) % 16) as u8));
    s.append(hex_digit(((v / 16) % 16) as u8));
    s.append(hex_digit((v % 16) as u8));
    proof {
        assert(s@ =~= spec_hex4(v));
    }
    s
}

/// A value as at least two upper-case hexadecimal digits.
pub fn format_hex_min2(v: u16) -> (r: String)
    ensures
        r@ == spec_hex_min2(v),
{
    if v < 0x100 {
        format_hex_byte(v as u8)
    } else if v < 0x1000 {
        let mut s = String::from_str(hex_digit((v / 0x100) as u8));
        s.append(format_hex_byte((v % 0x100) as u8).as_str());
        proof {
            assert(s@ =~= spec_hex_min2(v));
        }
        s
    } else {
        format_hex_word(v)
    }
}

/// The conventional mnemonic of an operation, e.g. `LDA`.
pub fn format_operation(operation: Operation) -> (r: String)
    ensures
        r@ == op_name(operation),
{
    match operation {
        Operation::ADC => String::from_str("ADC"),
        Operation::AND => String::from_str("AND"),
        Operation::ASL => String::from_str("ASL"),
        Operation::BCC => String::from_str("BCC"),
        Operation::BCS => String::from_str("BCS"),
        Operation::BEQ => String::from_str("BEQ"),
        Operation::BIT => String::from_str("BIT"),
        Operation::BMI => String::from_str("BMI"),
        Operation::BNE => String::from_str("BNE"),
        Operation::BPL => String::from_str("BPL"),
        Operation::BRK => String::from_str("BRK"),
        Operation::BVC => String::from_str("BVC"),
        Operation::BVS => String::from_str("BVS"),
        Operation::CLC => String::from_str("CLC"),
        Operation::CLD => String::from_str("CLD"),
        Operation::CLI => String::from_str("CLI"),
        Operation::CLV => String::from_str("CLV"),
        Operation::CMP => String::from_str("CMP"),
        Operation::CPX => String::from_str("CPX"),
        Operation::CPY => String::from_str("CPY"),
        Operation::DEC => String::from_str("DEC"),
        Operation::DEX => String::from_str("DEX"),
        Operation::DEY => String::from_str("DEY"),
        Operation::EOR => String::from_str("EOR"),
        Operation::INC => String::from_str("INC"),
        Operation::INX => String::from_str("INX"),
        Operation::INY => String::from_str("INY"),
        Operation::JMP => String::from_str("JMP"),
        Operation::JSR => String::from_str("JSR"),
        Operation::LDA => String::from_str("LDA"),
        Operation::LDX => String::from_str("LDX"),
        Operation::LDY => String::from_str("LDY"),
        Operation::LSR => String::from_str("LSR"),
        Operation::NOP => String::from_str("NOP"),
        Operation::ORA => String::from_str("ORA"),
        Operation::PHA => String::from_str("PHA"),
        Operation::PHP => String::from_str("PHP"),
        Operation::PLA => String::from_str("PLA"),
        Operation::PLP => String::from_str("PLP"),
        Operation::ROL => String::from_str("ROL"),
        Operation::ROR => String::from_str("ROR"),
        Operation::RTI => String::from_str("RTI"),
        Operation::RTS => String::from_str("RTS"),
        Operation::SBC => String::from_str("SBC"),
        Operation::SEC => String::from_str("SEC"),
        Operation::SED => String::from_str("SED"),
        Operation::SEI => String::from_str("SEI"),
        Operation::STA => String::from_str("STA"),
        Operation::STX => String::from_str("STX"),
        Operation::STY => String::from_str("STY"),
        Operation::TAX => String::from_str("TAX"),
        Operation::TAY => String::from_str("TAY"),
        Operation::TSX => String::from_str("TSX"),
        Operation::TXA => String::from_str("TXA"),
        Operation::TXS => String::from_str("TXS"),
        Operation::TYA => String::from_str("TYA"),
    }
}

/// The operand column of the trace in conventional 6502 syntax: the raw
/// operand bytes of the instruction, rendered for the addressing mode; a
/// relative branch is shown as its resolved target, two bytes past the
/// operand position `pc`.
pub open spec fn spec_format_operand(operand: u16, pc: u16, mode: AddressingMode) -> Seq<char> {
    match mode {
        AddressingMode::ACC => "A"@,
        AddressingMode::ABS => "$"@ + spec_hex4(operand),
        AddressingMode::ABSX => "$"@ + spec_hex4(operand) + ",X"@,
        AddressingMode::ABSY => "$"@ + spec_hex4(operand) + ",Y"@,
        AddressingMode::IMM => "#$"@ + spec_hex_min2(operand),
        AddressingMode::IMPL => ""@,
        AddressingMode::IND => "($"@ + spec_hex4(operand) + ")"@,
        AddressingMode::XIND => "($"@ + spec_hex_min2(operand) + ",X)"@,
        AddressingMode::INDY => "($"@ + spec_hex_min2(operand) + "),Y"@,
        AddressingMode::REL => "$"@ + spec_hex4(w16(pc + sext8(w8(operand as int)) + 2)),
        AddressingMode::ZPG => "$"@ + spec_hex_min2(operand),
        AddressingMode::ZPGX => "$"@ + spec_hex_min2(operand) + ",X"@,
        AddressingMode::ZPGY => "$"@ + spec_hex_min2(operand) + ",Y"@,
    }
}

/// Render the operand column of the trace.
pub fn format_operand(operand: u16, pc: u16, mode: AddressingMode) -> (r: String)
    ensures
        r@ == spec_format_operand(operand, pc, mode),
{
    match mode {
        AddressingMode::ACC | AddressingMode::IMPL | AddressingMode::IMM | AddressingMode::ZPG
        | AddressingMode::ZPGX | AddressingMode::ZPGY => format_operand_byte(operand, pc, mode),
        AddressingMode::ABS | AddressingMode::ABSX | AddressingMode::ABSY
        | AddressingMode::IND => format_operand_word(operand, pc, mode),
        _ => format_operand_indirect(operand, pc, mode),
    }
}

#[verifier::rlimit(100)]
#[verifier::spinoff_prover]
fn format_operand_byte(operand: u16, pc: u16, mode: AddressingMode) -> (r: String)
    requires
        mode == AddressingMode::ACC || mode == AddressingMode::IMPL || mode == AddressingMode::IMM
            || mode == AddressingMode::ZPG || mode == AddressingMode::ZPGX || mode
            == AddressingMode::ZPGY,
    ensures
        r@ == spec_format_operand(operand, pc, mode),
{
    match mode {
        AddressingMode::ACC => String::from_str("A"),
        AddressingMode::IMPL => String::from_str(""),
        AddressingMode::IMM => {
            let mut s = String::from_str("#$");
            s.append(format_hex_min2(operand).as_str());
            proof {
                assert(s@ =~= spec_format_operand(operand, pc, mode));
            }
            s
        },
        AddressingMode::ZPG => {
            let mut s = String::from_str("$");
            s.append(format_hex_min2(operand).as_str());
            proof {
                assert(s@ =~= spec_format_operand(operand, pc, mode));
            }
            s
        },
        AddressingMode::ZPGX => {
            let mut s = String::from_str("$");
            s.append(format_hex_min2(operand).as_str());
            s.append(",X");
            proof {
                assert(s@ =~= spec_format_operand(operand, pc, mode));
            }
            s
        },
        _ => {
            let mut s = String::from_str("$");
            s.append(format_hex_min2(operand).as_str());
            s.append(",Y");
            proof {
                assert(s@ =~= spec_format_operand(operand, pc, mode));
            }
            s
        },
    }
}

#[verifier::rlimit(100)]
#[verifier::spinoff_prover]
fn format_operand_word(operand: u16, pc: u16, mode: AddressingMode) -> (r: String)
    requires
        mode == AddressingMode::ABS || mode == AddressingMode::ABSX || mode == AddressingMode::ABSY
            || mode == AddressingMode::IND,
    ensures
        r@ == spec_format_operand(operand, pc, mode),
{
    match mode {
        AddressingMode::ABS => {
            let mut s = String::from_str("$");
            s.append(format_hex_word(operand).as_str());
            proof {
                assert(s@ =~= spec_format_operand(operand, pc, mode));
            }
            s
        },
        AddressingMode::ABSX => {
            let mut s = String::from_str("$");
            s.append(format_hex_word(operand).as_str());
            s.append(",X");
            proof {
                assert(s@ =~= spec_format_operand(operand, pc, mode));
            }
            s
        },
        AddressingMode::ABSY => {
            let mut s = String::from_str("$");
            s.append(format_hex_word(operand).as_str());
            s.append(",Y");
            proof {
                assert(s@ =~= spec_format_operand(operand, pc, mode));
            }
            s
        },
        _ => {
            let mut s = String::from_str("($");
            s.append(format_hex_word(operand).as_str());
            s.append(")");
            proof {
                assert(s@ =~= spec_format_operand(operand, pc, mode));
            }
            s
        },
    }
}

#[verifier::rlimit(100)]
#[verifier::spinoff_prover]
fn format_operand_indirect(operand: u16, pc: u16, mode: AddressingMode) -> (r: String)
    requires
        mode == AddressingMode::XIND || mode == AddressingMode::INDY || mode == AddressingMode::REL,
    ensures
        r@ == spec_format_operand(operand, pc, mode),
{
    match mode {
        AddressingMode::XIND => {
            let mut s = String::from_str("($");
            s.append(format_hex_min2(operand).as_str());
            s.append(",X)");
            proof {
                assert(s@ =~= spec_format_operand(operand, pc, mode));
            }
            s
        },
        AddressingMode::INDY => {
            let mut s = String::from_str("($");
            s.append(format_hex_min2(operand).as_str());
            s.append("),Y");
            proof {
                assert(s@ =~= spec_format_operand(operand, pc, mode));
            }
            s
        },
        _ => {
            let b = (operand % 0x100) as u8;
            let target: u16 = if b >= 0x80 {
                pc.wrapping_sub(0x100 - b as u16).wrapping_add(2)
            } else {
                pc.wrapping_add(b as u16).wrapping_add(2)
            };
            let mut s = String::from_str("$");
            s.append(format_hex_word(target).as_str());
            proof {
                assert(target == w16(pc + sext8(w8(operand as int)) + 2));
                assert(s@ =~= spec_format_operand(operand, pc, mode));
            }
            s
        },
    }
}

/// The operand-bytes column of the trace: the raw bytes in program order,
/// two hex digits each, padded to five characters.
pub open spec fn operand_bytes_spec(operand: Option<u16>) -> Seq<char> {
    match operand {
        None => "     "@,
        Some(op) => if op > 0xFF {
            spec_hex2(crate::state::lo8(op)) + " "@ + spec_hex2(crate::state::hi8(op))
        } else {
            spec_hex2(op as u8) + "   "@
        },
    }
}

/// A byte as decimal digits, as the cycle column prints it.
pub open spec fn spec_dec_u8(v: u8) -> Seq<char> {
    if v < 10 {
        seq![hex_char(v as int)]
    } else if v < 100 {
        seq![hex_char((v / 10) as int), hex_char((v % 10) as int)]
    } else {
        seq![
            hex_char((v / 100) as int),
            hex_char(((v / 10) % 10) as int),
            hex_char((v % 10) as int),
        ]
    }
}

/// A flag bit as the digit the flag column prints.
pub open spec fn bit_char(b: u8) -> Seq<char> {
    if b == 0 {
        "0"@
    } else {
        "1"@
    }
}

/// `n` spaces.
pub open spec fn spaces_spec(n: int) -> Seq<char>
    decreases n,
{
    if n <= 0 {
        Seq::empty()
    } else {
        spaces_spec(n - 1).push(' ')
    }
}

/// The operand column padded to at least nine characters, as the trace
/// left-justifies it.
pub open spec fn pad9(s: Seq<char>) -> Seq<char> {
    if s.len() < 9 {
        s + spaces_spec(9 - s.len())
    } else {
        s
    }
}

/// The operand column of a trace record: the rendered operand, or empty
/// where the instruction had none.
pub open spec fn operand_column_spec(t: Trace) -> Seq<char> {
    match t.operand {
        Some(op) => spec_format_operand(op, t.pc, t.instruction.mode),
        None => ""@,
    }
}

/// One printed trace line: PC, opcode, raw operand bytes, mnemonic and
/// operand in conventional syntax (padded to nine columns), the A X Y SP
/// registers, the N V D I Z C flag digits, and the base cycle count.
pub open spec fn spec_trace_line(t: Trace) -> Seq<char> {
    spec_hex4(t.pc) + " "@ + spec_hex2(t.instruction.opcode) + " "@ + operand_bytes_spec(t.operand)
        + "  "@ + op_name(t.instruction.operation) + " "@ + pad9(operand_column_spec(t)) + " |"@
        + spec_hex2(t.a) + " "@ + spec_hex2(t.x) + " "@ + spec_hex2(t.y) + " "@ + spec_hex2(t.sp)
        + "|"@ + bit_char((t.sr >> 7) & 1) + bit_char((t.sr >> 6) & 1) + bit_char((t.sr >> 3) & 1)
        + bit_char((t.sr >> 2) & 1) + bit_char((t.sr >> 1) & 1) + bit_char(t.sr & 1) + "|"@
        + spec_dec_u8(t.instruction.cycles) + " "@
}

fn bit_str(b: u8) -> (r: &'static str)
    ensures
        r@ == bit_char(b),
{
    if b == 0 {
        "0"
    } else {
        "1"
    }
}

/// A byte as decimal digits.
pub fn format_dec_u8(v: u8) -> (r: String)
    ensures
        r@ == spec_dec_u8(v),
{
    if v < 10 {
        let s = String::from_str(hex_digit(v));
        proof {
            assert(s@ =~= spec_dec_u8(v));
        }
        s
    } else if v < 100 {
        let mut s = String::from_str(hex_digit(v / 10));
        s.append(hex_digit(v % 10));
        proof {
            assert(s@ =~= spec_dec_u8(v));
        }
        s
    } else {
        let mut s = String::from_str(hex_digit(v / 100));
        s.append(hex_digit((v / 10) % 10));
        s.append(hex_digit(v % 10));
        proof {
            assert(s@ =~= spec_dec_u8(v));
        }
        s
    }
}

fn append_spaces(s: &mut String, n: usize)
    ensures
        final(s)@ == old(s)@ + spaces_spec(n as int),
{
    let mut i: usize = 0;
    proof {
        assert(old(s)@ + spaces_spec(0) =~= old(s)@);
    }
    while i < n
        invariant
            i <= n,
            s@ == old(s)@ + spaces_spec(i as int),
        decreases n - i,
    {
        s.append(" ");
        proof {
            reveal_strlit(" ");
            assert((old(s)@ + spaces_spec(i as int)) + " "@ =~= old(s)@ + spaces_spec(
                i as int + 1,
            ));
        }
        i = i + 1;
    }
}

/// How many characters the rendered operand occupies.
#[verifier::rlimit(100)]
#[verifier::spinoff_prover]
fn operand_display_len(operand: u16, pc: u16, mode: AddressingMode) -> (r: usize)
    ensures
        r == spec_format_operand(operand, pc, mode).len(),
{
    proof {
        reveal_strlit("A");
        reveal_strlit("");
        reveal_strlit("$");
        reveal_strlit("#$");
        reveal_strlit("($");
        reveal_strlit(")");
        reveal_strlit(",X");
        reveal_strlit(",Y");
        reveal_strlit(",X)");
        reveal_strlit("),Y");
    }
    let digits: usize = if operand < 0x100 {
        2
    } else if operand < 0x1000 {
        3
    } else {
        4
    };
    match mode {
        AddressingMode::ACC => 1,
        AddressingMode::IMPL => 0,
        AddressingMode::IMM => 2 + digits,
        AddressingMode::ABS => 5,
        AddressingMode::ABSX => 7,
        AddressingMode::ABSY => 7,
        AddressingMode::IND => 7,
        AddressingMode::XIND => 5 + digits,
        AddressingMode::INDY => 5 + digits,
        AddressingMode::REL => 5,
        AddressingMode::ZPG => 1 + digits,
        AddressingMode::ZPGX => 3 + digits,
        AddressingMode::ZPGY => 3 + digits,
    }
}

/// The operand-bytes column, five characters.
fn format_operand_bytes(operand: Option<u16>) -> (r: String)
    ensures
        r@ == operand_bytes_spec(operand),
{
    match operand {
        None => {
            let s = String::from_str("     ");
            s
        },
        Some(op) => {
            if op > 0xFF {
                let mut s = format_hex_byte((op % 0x100) as u8);
                s.append(" ");
                s.append(format_hex_byte((op / 0x100) as u8).as_str());
                proof {
                    assert(s@ =~= operand_bytes_spec(operand));
                }
                s
            } else {
                let mut s = format_hex_byte(op as u8);
                s.append("   ");
                proof {
                    assert(s@ =~= operand_bytes_spec(operand));
                }
                s
            }
        },
    }
}

/// Render one trace line, exactly as the spec'd record lays it out.
///
/// A host prints the returned string; nothing else is left to it.
#[verifier::rlimit(100)]
#[verifier::spinoff_prover]
pub fn format_trace(t: &Trace) -> (r: String)
    ensures
        r@ == spec_trace_line(*t),
{
    let mut s = format_hex_word(t.pc);
    s.append(" ");
    s.append(format_hex_byte(t.instruction.opcode).as_str());
    s.append(" ");
    s.append(format_operand_bytes(t.operand).as_str());
    s.append("  ");
    s.append(format_operation(t.instruction.operation).as_str());
    s.append(" ");
    let col: String = match t.operand {
        Some(op) => format_operand(op, t.pc, t.instruction.mode),
        None => String::from_str(""),
    };
    let col_len: usize = match t.operand {
        Some(op) => operand_display_len(op, t.pc, t.instruction.mode),
        None => {
            proof {
                reveal_strlit("");
            }
            0
        },
    };
    s.append(col.as_str());
    if col_len < 9 {
        append_spaces(&mut s, 9 - col_len);
    }
    s.append(" |");
    s.append(format_hex_byte(t.a).as_str());
    s.append(" ");
    s.append(format_hex_byte(t.x).as_str());
    s.append(" ");
    s.append(format_hex_byte(t.y).as_str());
    s.append(" ");
    s.append(format_hex_byte(t.sp).as_str());
    s.append("|");
    s.append(bit_str((t.sr >> 7) & 1));
    s.append(bit_str((t.sr >> 6) & 1));
    s.append(bit_str((t.sr >> 3) & 1));
    s.append(bit_str((t.sr >> 2) & 1));
    s.append(bit_str((t.sr >> 1) & 1));
    s.append(bit_str(t.sr & 1));
    s.append("|");
    s.append(format_dec_u8(t.instruction.cycles).as_str());
    s.append(" ");
    proof {
        assert(s@ =~= spec_trace_line(*t));
    }
    s
}

} // verus!
