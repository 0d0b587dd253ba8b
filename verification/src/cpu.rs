//! The instruction executor: per-operation semantics over `CPUState`,
//! including all flag side effects, stack discipline and cycle counting.

use vstd::prelude::*;

use crate::instruction::AddressingMode;
use crate::instruction::Instruction;
use crate::instruction::Operation;
use crate::instruction::decode;
use crate::instruction::instruction_length;
use crate::instruction::is_address_mode;
use crate::instruction::is_value_mode;
use crate::instruction::opcode_to_instruction;
use crate::instruction::operand_len;
use crate::instrumentation::Trace;
use crate::memory::Memory;
use crate::state::CPUState;
use crate::state::IRQ_VECTOR_ADDR;
use crate::state::lo8;
use crate::state::hi8;
use crate::state::sext8;
use crate::state::st_c;
use crate::state::st_d;
use crate::state::st_n;
use crate::state::st_set_c;
use crate::state::st_set_d;
use crate::state::st_set_n;
use crate::state::st_set_v;
use crate::state::st_set_z;
use crate::state::st_v;
use crate::state::st_z;
use crate::state::stack_addr;
use crate::state::upd_if;
use crate::state::w16;
use crate::state::w8;
use crate::state::word_at;
use crate::state::word_from;

verus! {

/// An opcode that is not in the instruction table, and the PC it was
/// fetched from.  Decoding cannot continue past it: silently skipping it
/// would misalign PC with the instruction stream.
#[derive(Clone, Copy, Debug, PartialEq, Eq, Structural)]
pub struct DecodeError {
    pub opcode: u8,
    pub pc: u16,
}

/// The unsigned sum `ADC` forms from the accumulator, the operand and the
/// carry-in, with binary-coded-decimal correction applied when D is set.
pub open spec fn adc_sum(a: u8, v: u8, c: u8, d: u8) -> int {
    if d == 1 {
        let r0 = a + v + c;
        let r1 = if (a & 0x0F) + (v & 0x0F) + c > 0x09 {
            r0 + 0x06
        } else {
            r0
        };
        if r1 > 0x99 {
            r1 + 0x60
        } else {
            r1
        }
    } else {
        a + v + c
    }
}

/// The unsigned sum `SBC` forms: the accumulator plus the complemented
/// operand plus the carry-in, with decimal correction applied when D is set
/// (the corrections wrap like the 16-bit value the executor carries).
pub open spec fn sbc_sum(a: u8, v: u8, c: u8, d: u8) -> int {
    let base = a + !v + c;
    if d == 1 {
        let r1 = if (a & 0x0F) < (v & 0x0F) + 1 - c {
            w16(base - 0x06) as int
        } else {
            base
        };
        if r1 < 0x100 {
            w16(r1 - 0x60) as int
        } else {
            r1
        }
    } else {
        base
    }
}

/// The signed-overflow test `ADC` uses, over the operands and the result.
pub open spec fn adc_v(a: u8, v: u8, r: u8) -> bool {
    ((a ^ r) & (v ^ r) & 0x80) != 0
}

/// The signed-overflow test `SBC` uses: as `ADC`'s, with the complemented
/// operand in place of the operand.
pub open spec fn sbc_v(a: u8, v: u8, r: u8) -> bool {
    ((a ^ r) & (!v ^ r) & 0x80) != 0
}

/// Accumulator and status register after `ADC` with operand `v`.
pub open spec fn adc_effect(a: u8, p: u8, v: u8) -> (u8, u8) {
    let sum = adc_sum(a, v, st_c(p), st_d(p));
    let r = w8(sum);
    let p1 = st_set_c(p, if sum > 0xFF {
        1
    } else {
        0
    });
    let p2 = st_set_v(p1, adc_v(a, v, r));
    (r, st_set_n(st_set_z(p2, r), r))
}

/// Accumulator and status register after `SBC` with operand `v`.
pub open spec fn sbc_effect(a: u8, p: u8, v: u8) -> (u8, u8) {
    let sum = sbc_sum(a, v, st_c(p), st_d(p));
    let r = w8(sum);
    let p1 = st_set_c(p, if sum > 0xFF {
        1
    } else {
        0
    });
    let p2 = st_set_v(p1, sbc_v(a, v, r));
    (r, st_set_n(st_set_z(p2, r), r))
}

/// Status register after a compare of register value `reg` with operand
/// `v`: C from `reg >= v`, Z and N from the wrapped difference.
pub open spec fn cmp_status(p: u8, reg: u8, v: u8) -> u8 {
    let r = w8(reg - v);
    st_set_n(
        st_set_z(
            st_set_c(
                p,
                if reg >= v {
                    1
                } else {
                    0
                },
            ),
            r,
        ),
        r,
    )
}

/// The eight conditional branch operations.
pub open spec fn is_branch(operation: Operation) -> bool {
    match operation {
        Operation::BCC => true,
        Operation::BCS => true,
        Operation::BEQ => true,
        Operation::BMI => true,
        Operation::BNE => true,
        Operation::BPL => true,
        Operation::BVC => true,
        Operation::BVS => true,
        _ => false,
    }
}

/// Whether a branch operation takes its branch under status register `p`.
pub open spec fn branch_taken(operation: Operation, p: u8) -> bool {
    match operation {
        Operation::BPL => st_n(p) == 0,
        Operation::BMI => st_n(p) == 1,
        Operation::BVC => st_v(p) == 0,
        Operation::BVS => st_v(p) == 1,
        Operation::BCC => st_c(p) == 0,
        Operation::BCS => st_c(p) == 1,
        Operation::BNE => st_z(p) == 0,
        Operation::BEQ => st_z(p) == 1,
        _ => false,
    }
}

/// Operations after which PC always advances by the instruction length:
/// everything except branches, jumps, subroutine and interrupt transfers.
pub open spec fn pc_linear(operation: Operation) -> bool {
    !(is_branch(operation) || operation == Operation::JMP || operation == Operation::JSR
        || operation == Operation::RTS || operation == Operation::RTI || operation
        == Operation::BRK)
}

/// The raw operand bytes found at `pc` for a mode, as the trace records
/// them: one byte, a little-endian word, or nothing.
pub open spec fn operand_peek_at(m: Seq<u8>, pc: u16, mode: AddressingMode) -> Option<u16> {
    match mode {
        AddressingMode::ACC => None,
        AddressingMode::IMPL => None,
        AddressingMode::ABS => Some(word_at(m, pc)),
        AddressingMode::ABSX => Some(word_at(m, pc)),
        AddressingMode::ABSY => Some(word_at(m, pc)),
        _ => Some(m[pc as int] as u16),
    }
}

/// The CPU emulator: the instruction set executed against a `CPUState`.
pub struct CPU<T: Memory> {
    pub state: CPUState<T>,
}

impl<T: Memory> CPU<T> {
    pub fn new(state: CPUState<T>) -> (r: CPU<T>)
        ensures
            r.state == state,
    {
        CPU { state }
    }

    pub fn get_mut_state(&mut self) -> (r: &mut CPUState<T>)
        ensures
            *r == old(self).state,
            final(self).state == *final(r),
    {
        &mut self.state
    }

    /// Peek at the operand bytes under PC, for the trace; never advances PC.
    fn read_operand(&mut self, mode: AddressingMode) -> (r: Option<u16>)
        ensures
            final(self).state.regs_same(old(self).state),
            final(self).state.mem_same(old(self).state),
            (r is None) <==> (mode == AddressingMode::ACC || mode == AddressingMode::IMPL),
            (match mode {
                AddressingMode::ACC => true,
                AddressingMode::IMPL => true,
                AddressingMode::ABS
                | AddressingMode::ABSX
                | AddressingMode::ABSY => old(self).state.plain(old(self).state.pc) && old(self).state.plain(w16(old(self).state.pc + 1)),
                _ => old(self).state.plain(old(self).state.pc),
            }) ==> r == operand_peek_at(old(self).state.ram(), old(self).state.pc, mode),
    {
        match mode {
            AddressingMode::ACC => None,
            AddressingMode::IMPL => None,
            AddressingMode::ABS | AddressingMode::ABSX | AddressingMode::ABSY => {
                let pc = self.state.pc;
                Some(self.state.read_word(pc))
            },
            _ => {
                let pc = self.state.pc;
                Some(self.state.read_byte(pc) as u16)
            },
        }
    }

    fn lda(&mut self, mode: AddressingMode)
        requires
            is_value_mode(mode),
        ensures
            final(self).state.x == old(self).state.x,
            final(self).state.y == old(self).state.y,
            final(self).state.sp == old(self).state.sp,
            final(self).state.cycles == old(self).state.cycles,
            final(self).state.pc == w16(old(self).state.pc + operand_len(mode)),
            final(self).state.mem_same(old(self).state),
            final(self).state.status == st_set_n(
                st_set_z(old(self).state.status, final(self).state.a),
                final(self).state.a,
            ),
            old(self).state.operand_plain(mode) ==> final(self).state.a == old(self).state.operand(
                mode,
            ),
    {
        let operand = self.state.fetch_operand(mode);
        self.state.set_a(operand);
        let a = self.state.a;
        self.state.set_z(a);
        self.state.set_n(a);
    }

    fn ldx(&mut self, mode: AddressingMode)
        requires
            is_value_mode(mode),
        ensures
            final(self).state.a == old(self).state.a,
            final(self).state.y == old(self).state.y,
            final(self).state.sp == old(self).state.sp,
            final(self).state.cycles == old(self).state.cycles,
            final(self).state.pc == w16(old(self).state.pc + operand_len(mode)),
            final(self).state.mem_same(old(self).state),
            final(self).state.status == st_set_n(
                st_set_z(old(self).state.status, final(self).state.x),
                final(self).state.x,
            ),
            old(self).state.operand_plain(mode) ==> final(self).state.x == old(self).state.operand(
                mode,
            ),
    {
        let operand = self.state.fetch_operand(mode);
        self.state.set_x(operand);
        let x = self.state.x;
        self.state.set_z(x);
        self.state.set_n(x);
    }

    fn ldy(&mut self, mode: AddressingMode)
        requires
            is_value_mode(mode),
        ensures
            final(self).state.a == old(self).state.a,
            final(self).state.x == old(self).state.x,
            final(self).state.sp == old(self).state.sp,
            final(self).state.cycles == old(self).state.cycles,
            final(self).state.pc == w16(old(self).state.pc + operand_len(mode)),
            final(self).state.mem_same(old(self).state),
            final(self).state.status == st_set_n(
                st_set_z(old(self).state.status, final(self).state.y),
                final(self).state.y,
            ),
            old(self).state.operand_plain(mode) ==> final(self).state.y == old(self).state.operand(
                mode,
            ),
    {
        let operand = self.state.fetch_operand(mode);
        self.state.set_y(operand);
        let y = self.state.y;
        self.state.set_z(y);
        self.state.set_n(y);
    }

    fn ora(&mut self, mode: AddressingMode)
        requires
            is_value_mode(mode),
        ensures
            final(self).state.x == old(self).state.x,
            final(self).state.y == old(self).state.y,
            final(self).state.sp == old(self).state.sp,
            final(self).state.cycles == old(self).state.cycles,
            final(self).state.pc == w16(old(self).state.pc + operand_len(mode)),
            final(self).state.mem_same(old(self).state),
            final(self).state.status == st_set_n(
                st_set_z(old(self).state.status, final(self).state.a),
                final(self).state.a,
            ),
            old(self).state.operand_plain(mode) ==> final(self).state.a == (old(self).state.a | old(self).state.operand(mode)),
    {
        let operand = self.state.fetch_operand(mode);
        let a = self.state.get_a() | operand;
        self.state.set_a(a);
        self.state.set_z(a);
        self.state.set_n(a);
    }

    fn and(&mut self, mode: AddressingMode)
        requires
            is_value_mode(mode),
        ensures
            final(self).state.x == old(self).state.x,
            final(self).state.y == old(self).state.y,
            final(self).state.sp == old(self).state.sp,
            final(self).state.cycles == old(self).state.cycles,
            final(self).state.pc == w16(old(self).state.pc + operand_len(mode)),
            final(self).state.mem_same(old(self).state),
            final(self).state.status == st_set_n(
                st_set_z(old(self).state.status, final(self).state.a),
                final(self).state.a,
            ),
            old(self).state.operand_plain(mode) ==> final(self).state.a == (old(self).state.a & old(self).state.operand(mode)),
    {
        let operand = self.state.fetch_operand(mode);
        let a = self.state.get_a() & operand;
        self.state.set_a(a);
        self.state.set_z(a);
        self.state.set_n(a);
    }

    fn eor(&mut self, mode: AddressingMode)
        requires
            is_value_mode(mode),
        ensures
            final(self).state.x == old(self).state.x,
            final(self).state.y == old(self).state.y,
            final(self).state.sp == old(self).state.sp,
            final(self).state.cycles == old(self).state.cycles,
            final(self).state.pc == w16(old(self).state.pc + operand_len(mode)),
            final(self).state.mem_same(old(self).state),
            final(self).state.status == st_set_n(
                st_set_z(old(self).state.status, final(self).state.a),
                final(self).state.a,
            ),
            old(self).state.operand_plain(mode) ==> final(self).state.a == (old(self).state.a ^ old(self).state.operand(mode)),
    {
        let operand = self.state.fetch_operand(mode);
        let a = self.state.get_a() ^ operand;
        self.state.set_a(a);
        self.state.set_z(a);
        self.state.set_n(a);
    }

    fn sta(&mut self, mode: AddressingMode)
        requires
            is_address_mode(mode),
        ensures
            final(self).state.a == old(self).state.a,
            final(self).state.x == old(self).state.x,
            final(self).state.y == old(self).state.y,
            final(self).state.sp == old(self).state.sp,
            final(self).state.status == old(self).state.status,
            final(self).state.cycles == old(self).state.cycles,
            final(self).state.pc == w16(old(self).state.pc + operand_len(mode)),
            final(self).state.plain_same(old(self).state),
            old(self).state.ea_plain(mode) ==> final(self).state.ram() == upd_if(
                old(self).state.ram(),
                old(self).state.plain(old(self).state.ea(mode)),
                old(self).state.ea(mode),
                old(self).state.a,
            ),
    {
        let address = self.state.resolve_address(mode);
        let a = self.state.a;
        self.state.write_byte(address, a);
    }

    fn stx(&mut self, mode: AddressingMode)
        requires
            is_address_mode(mode),
        ensures
            final(self).state.a == old(self).state.a,
            final(self).state.x == old(self).state.x,
            final(self).state.y == old(self).state.y,
            final(self).state.sp == old(self).state.sp,
            final(self).state.status == old(self).state.status,
            final(self).state.cycles == old(self).state.cycles,
            final(self).state.pc == w16(old(self).state.pc + operand_len(mode)),
            final(self).state.plain_same(old(self).state),
            old(self).state.ea_plain(mode) ==> final(self).state.ram() == upd_if(
                old(self).state.ram(),
                old(self).state.plain(old(self).state.ea(mode)),
                old(self).state.ea(mode),
                old(self).state.x,
            ),
    {
        let address = self.state.resolve_address(mode);
        let x = self.state.x;
        self.state.write_byte(address, x);
    }

    fn sty(&mut self, mode: AddressingMode)
        requires
            is_address_mode(mode),
        ensures
            final(self).state.a == old(self).state.a,
            final(self).state.x == old(self).state.x,
            final(self).state.y == old(self).state.y,
            final(self).state.sp == old(self).state.sp,
            final(self).state.status == old(self).state.status,
            final(self).state.cycles == old(self).state.cycles,
            final(self).state.pc == w16(old(self).state.pc + operand_len(mode)),
            final(self).state.plain_same(old(self).state),
            old(self).state.ea_plain(mode) ==> final(self).state.ram() == upd_if(
                old(self).state.ram(),
                old(self).state.plain(old(self).state.ea(mode)),
                old(self).state.ea(mode),
                old(self).state.y,
            ),
    {
        let address = self.state.resolve_address(mode);
        let y = self.state.y;
        self.state.write_byte(address, y);
    }

    fn dey(&mut self)
        ensures
            final(self).state.y == w8(old(self).state.y - 1),
            final(self).state.a == old(self).state.a,
            final(self).state.x == old(self).state.x,
            final(self).state.sp == old(self).state.sp,
            final(self).state.pc == old(self).state.pc,
            final(self).state.cycles == old(self).state.cycles,
            final(self).state.mem_same(old(self).state),
            final(self).state.status == st_set_n(
                st_set_z(old(self).state.status, final(self).state.y),
                final(self).state.y,
            ),
    {
        let y = self.state.y.wrapping_sub(1);
        self.state.set_y(y);
        self.state.set_z(y);
        self.state.set_n(y);
    }

    fn dex(&mut self)
        ensures
            final(self).state.x == w8(old(self).state.x - 1),
            final(self).state.a == old(self).state.a,
            final(self).state.y == old(self).state.y,
            final(self).state.sp == old(self).state.sp,
            final(self).state.pc == old(self).state.pc,
            final(self).state.cycles == old(self).state.cycles,
            final(self).state.mem_same(old(self).state),
            final(self).state.status == st_set_n(
                st_set_z(old(self).state.status, final(self).state.x),
                final(self).state.x,
            ),
    {
        let x = self.state.x.wrapping_sub(1);
        self.state.set_x(x);
        self.state.set_z(x);
        self.state.set_n(x);
    }

    fn iny(&mut self)
        ensures
            final(self).state.y == w8(old(self).state.y + 1),
            final(self).state.a == old(self).state.a,
            final(self).state.x == old(self).state.x,
            final(self).state.sp == old(self).state.sp,
            final(self).state.pc == old(self).state.pc,
            final(self).state.cycles == old(self).state.cycles,
            final(self).state.mem_same(old(self).state),
            final(self).state.status == st_set_n(
                st_set_z(old(self).state.status, final(self).state.y),
                final(self).state.y,
            ),
    {
        let y = self.state.y.wrapping_add(1);
        self.state.set_y(y);
        self.state.set_z(y);
        self.state.set_n(y);
    }

    fn inx(&mut self)
        ensures
            final(self).state.x == w8(old(self).state.x + 1),
            final(self).state.a == old(self).state.a,
            final(self).state.y == old(self).state.y,
            final(self).state.sp == old(self).state.sp,
            final(self).state.pc == old(self).state.pc,
            final(self).state.cycles == old(self).state.cycles,
            final(self).state.mem_same(old(self).state),
            final(self).state.status == st_set_n(
                st_set_z(old(self).state.status, final(self).state.x),
                final(self).state.x,
            ),
    {
        let x = self.state.x.wrapping_add(1);
        self.state.set_x(x);
        self.state.set_z(x);
        self.state.set_n(x);
    }

    fn txa(&mut self)
        ensures
            final(self).state.a == old(self).state.x,
            final(self).state.x == old(self).state.x,
            final(self).state.y == old(self).state.y,
            final(self).state.sp == old(self).state.sp,
            final(self).state.pc == old(self).state.pc,
            final(self).state.cycles == old(self).state.cycles,
            final(self).state.mem_same(old(self).state),
            final(self).state.status == st_set_n(
                st_set_z(old(self).state.status, final(self).state.a),
                final(self).state.a,
            ),
    {
        let x = self.state.x;
        self.state.set_a(x);
        let a = self.state.a;
        self.state.set_z(a);
        self.state.set_n(a);
    }

    fn tya(&mut self)
        ensures
            final(self).state.a == old(self).state.y,
            final(self).state.x == old(self).state.x,
            final(self).state.y == old(self).state.y,
            final(self).state.sp == old(self).state.sp,
            final(self).state.pc == old(self).state.pc,
            final(self).state.cycles == old(self).state.cycles,
            final(self).state.mem_same(old(self).state),
            final(self).state.status == st_set_n(
                st_set_z(old(self).state.status, final(self).state.a),
                final(self).state.a,
            ),
    {
        let y = self.state.y;
        self.state.set_a(y);
        let a = self.state.a;
        self.state.set_z(a);
        self.state.set_n(a);
    }

    /// TXS does not update any flags.
    fn txs(&mut self)
        ensures
            final(self).state.sp == old(self).state.x,
            final(self).state.a == old(self).state.a,
            final(self).state.x == old(self).state.x,
            final(self).state.y == old(self).state.y,
            final(self).state.pc == old(self).state.pc,
            final(self).state.status == old(self).state.status,
            final(self).state.cycles == old(self).state.cycles,
            final(self).state.mem_same(old(self).state),
    {
        self.state.sp = self.state.x;
    }

    fn tay(&mut self)
        ensures
            final(self).state.y == old(self).state.a,
            final(self).state.a == old(self).state.a,
            final(self).state.x == old(self).state.x,
            final(self).state.sp == old(self).state.sp,
            final(self).state.pc == old(self).state.pc,
            final(self).state.cycles == old(self).state.cycles,
            final(self).state.mem_same(old(self).state),
            final(self).state.status == st_set_n(
                st_set_z(old(self).state.status, final(self).state.y),
                final(self).state.y,
            ),
    {
        let a = self.state.a;
        self.state.set_y(a);
        let y = self.state.y;
        self.state.set_z(y);
        self.state.set_n(y);
    }

    fn tax(&mut self)
        ensures
            final(self).state.x == old(self).state.a,
            final(self).state.a == old(self).state.a,
            final(self).state.y == old(self).state.y,
            final(self).state.sp == old(self).state.sp,
            final(self).state.pc == old(self).state.pc,
            final(self).state.cycles == old(self).state.cycles,
            final(self).state.mem_same(old(self).state),
            final(self).state.status == st_set_n(
                st_set_z(old(self).state.status, final(self).state.x),
                final(self).state.x,
            ),
    {
        let a = self.state.a;
        self.state.set_x(a);
        let x = self.state.x;
        self.state.set_z(x);
        self.state.set_n(x);
    }

    fn tsx(&mut self)
        ensures
            final(self).state.x == old(self).state.sp,
            final(self).state.a == old(self).state.a,
            final(self).state.y == old(self).state.y,
            final(self).state.sp == old(self).state.sp,
            final(self).state.pc == old(self).state.pc,
            final(self).state.cycles == old(self).state.cycles,
            final(self).state.mem_same(old(self).state),
            final(self).state.status == st_set_n(
                st_set_z(old(self).state.status, final(self).state.x),
                final(self).state.x,
            ),
    {
        let sp = self.state.sp;
        self.state.set_x(sp);
        let x = self.state.x;
        self.state.set_z(x);
        self.state.set_n(x);
    }

    fn clc(&mut self)
        ensures
            final(self).state.status == (old(self).state.status & 0xFE),
            final(self).state.a == old(self).state.a,
            final(self).state.x == old(self).state.x,
            final(self).state.y == old(self).state.y,
            final(self).state.sp == old(self).state.sp,
            final(self).state.pc == old(self).state.pc,
            final(self).state.cycles == old(self).state.cycles,
            final(self).state.mem_same(old(self).state),
    {
        self.state.status = self.state.status & 0xFE;
    }

    fn sec(&mut self)
        ensures
            final(self).state.status == (old(self).state.status | 0x01),
            final(self).state.a == old(self).state.a,
            final(self).state.x == old(self).state.x,
            final(self).state.y == old(self).state.y,
            final(self).state.sp == old(self).state.sp,
            final(self).state.pc == old(self).state.pc,
            final(self).state.cycles == old(self).state.cycles,
            final(self).state.mem_same(old(self).state),
    {
        self.state.status = self.state.status | 0x01;
    }

    fn cli(&mut self)
        ensures
            final(self).state.status == (old(self).state.status & 0xFB),
            final(self).state.a == old(self).state.a,
            final(self).state.x == old(self).state.x,
            final(self).state.y == old(self).state.y,
            final(self).state.sp == old(self).state.sp,
            final(self).state.pc == old(self).state.pc,
            final(self).state.cycles == old(self).state.cycles,
            final(self).state.mem_same(old(self).state),
    {
        self.state.status = self.state.status & 0xFB;
    }

    fn sei(&mut self)
        ensures
            final(self).state.status == (old(self).state.status | 0x04),
            final(self).state.a == old(self).state.a,
            final(self).state.x == old(self).state.x,
            final(self).state.y == old(self).state.y,
            final(self).state.sp == old(self).state.sp,
            final(self).state.pc == old(self).state.pc,
            final(self).state.cycles == old(self).state.cycles,
            final(self).state.mem_same(old(self).state),
    {
        self.state.status = self.state.status | 0x04;
    }

    fn clv(&mut self)
        ensures
            final(self).state.status == (old(self).state.status & 0xBF),
            final(self).state.a == old(self).state.a,
            final(self).state.x == old(self).state.x,
            final(self).state.y == old(self).state.y,
            final(self).state.sp == old(self).state.sp,
            final(self).state.pc == old(self).state.pc,
            final(self).state.cycles == old(self).state.cycles,
            final(self).state.mem_same(old(self).state),
    {
        self.state.status = self.state.status & 0xBF;
    }

    fn cld(&mut self)
        ensures
            final(self).state.status == (old(self).state.status & 0xF7),
            final(self).state.a == old(self).state.a,
            final(self).state.x == old(self).state.x,
            final(self).state.y == old(self).state.y,
            final(self).state.sp == old(self).state.sp,
            final(self).state.pc == old(self).state.pc,
            final(self).state.cycles == old(self).state.cycles,
            final(self).state.mem_same(old(self).state),
    {
        self.state.status = self.state.status & 0xF7;
    }

    fn sed(&mut self)
        ensures
            final(self).state.status == st_set_d(old(self).state.status, 1),
            final(self).state.a == old(self).state.a,
            final(self).state.x == old(self).state.x,
            final(self).state.y == old(self).state.y,
            final(self).state.sp == old(self).state.sp,
            final(self).state.pc == old(self).state.pc,
            final(self).state.cycles == old(self).state.cycles,
            final(self).state.mem_same(old(self).state),
    {
        self.state.set_d(1);
    }

    fn nop(&mut self)
        ensures
            *final(self) == *old(self),
    {
    }

    fn cmp(&mut self, mode: AddressingMode)
        requires
            is_value_mode(mode),
        ensures
            final(self).state.a == old(self).state.a,
            final(self).state.x == old(self).state.x,
            final(self).state.y == old(self).state.y,
            final(self).state.sp == old(self).state.sp,
            final(self).state.cycles == old(self).state.cycles,
            final(self).state.pc == w16(old(self).state.pc + operand_len(mode)),
            final(self).state.mem_same(old(self).state),
            old(self).state.operand_plain(mode) ==> final(self).state.status == cmp_status(
                old(self).state.status,
                old(self).state.a,
                old(self).state.operand(mode),
            ),
    {
        let operand = self.state.fetch_operand(mode);
        let a = self.state.get_a();
        let result = a.wrapping_sub(operand);
        self.state.set_c(if a >= operand {
            1
        } else {
            0
        });
        self.state.set_z(result);
        self.state.set_n(result);
    }

    fn cpx(&mut self, mode: AddressingMode)
        requires
            is_value_mode(mode),
        ensures
            final(self).state.a == old(self).state.a,
            final(self).state.x == old(self).state.x,
            final(self).state.y == old(self).state.y,
            final(self).state.sp == old(self).state.sp,
            final(self).state.cycles == old(self).state.cycles,
            final(self).state.pc == w16(old(self).state.pc + operand_len(mode)),
            final(self).state.mem_same(old(self).state),
            old(self).state.operand_plain(mode) ==> final(self).state.status == cmp_status(
                old(self).state.status,
                old(self).state.x,
                old(self).state.operand(mode),
            ),
    {
        let operand = self.state.fetch_operand(mode);
        let x = self.state.get_x();
        let result = x.wrapping_sub(operand);
        self.state.set_c(if x >= operand {
            1
        } else {
            0
        });
        self.state.set_z(result);
        self.state.set_n(result);
    }

    fn cpy(&mut self, mode: AddressingMode)
        requires
            is_value_mode(mode),
        ensures
            final(self).state.a == old(self).state.a,
            final(self).state.x == old(self).state.x,
            final(self).state.y == old(self).state.y,
            final(self).state.sp == old(self).state.sp,
            final(self).state.cycles == old(self).state.cycles,
            final(self).state.pc == w16(old(self).state.pc + operand_len(mode)),
            final(self).state.mem_same(old(self).state),
            old(self).state.operand_plain(mode) ==> final(self).state.status == cmp_status(
                old(self).state.status,
                old(self).state.y,
                old(self).state.operand(mode),
            ),
    {
        let operand = self.state.fetch_operand(mode);
        let y = self.state.get_y();
        let result = y.wrapping_sub(operand);
        self.state.set_c(if y >= operand {
            1
        } else {
            0
        });
        self.state.set_z(result);
        self.state.set_n(result);
    }

    /// BIT: Z from `A AND m`, N from bit 7 of `m`, V from bit 6 of `m`;
    /// the accumulator is unchanged.
    fn bit(&mut self, mode: AddressingMode)
        requires
            is_value_mode(mode),
        ensures
            final(self).state.a == old(self).state.a,
            final(self).state.x == old(self).state.x,
            final(self).state.y == old(self).state.y,
            final(self).state.sp == old(self).state.sp,
            final(self).state.cycles == old(self).state.cycles,
            final(self).state.pc == w16(old(self).state.pc + operand_len(mode)),
            final(self).state.mem_same(old(self).state),
            old(self).state.operand_plain(mode) ==> ({
                let v = old(self).state.operand(mode);
                final(self).state.status == st_set_v(
                    st_set_n(st_set_z(old(self).state.status, (old(self).state.a & v)), v),
                    (v & 0x40) != 0,
                )
            }),
    {
        let operand = self.state.fetch_operand(mode);
        let a = self.state.get_a();
        let result = a & operand;
        self.state.set_z(result);
        self.state.set_n(operand);
        self.state.set_v((operand & 0x40) != 0);
    }

    fn adc(&mut self, mode: AddressingMode)
        requires
            is_value_mode(mode),
        ensures
            final(self).state.x == old(self).state.x,
            final(self).state.y == old(self).state.y,
            final(self).state.sp == old(self).state.sp,
            final(self).state.cycles == old(self).state.cycles,
            final(self).state.pc == w16(old(self).state.pc + operand_len(mode)),
            final(self).state.mem_same(old(self).state),
            old(self).state.operand_plain(mode) ==> ({
                let e = adc_effect(
                    old(self).state.a,
                    old(self).state.status,
                    old(self).state.operand(mode),
                );
                final(self).state.a == e.0 && final(self).state.status == e.1
            }),
    {
        let operand = self.state.fetch_operand(mode);
        self.adc_value(operand);
    }

    /// The arithmetic core of ADC, on an already fetched operand.
    #[verifier::rlimit(100)]
    #[verifier::spinoff_prover]
    fn adc_value(&mut self, operand: u8)
        ensures
            final(self).state.x == old(self).state.x,
            final(self).state.y == old(self).state.y,
            final(self).state.sp == old(self).state.sp,
            final(self).state.pc == old(self).state.pc,
            final(self).state.cycles == old(self).state.cycles,
            final(self).state.mem_same(old(self).state),
            ({
                let e = adc_effect(old(self).state.a, old(self).state.status, operand);
                final(self).state.a == e.0 && final(self).state.status == e.1
            }),
    {
        let a = self.state.get_a();
        let carry = self.state.get_c();

        let sum: u16 = if self.state.get_d() == 1 {
            let mut result: u16 = a as u16 + operand as u16 + carry as u16;
            if (a & 0x0F) as u16 + (operand & 0x0F) as u16 + carry as u16 > 0x09 {
                result = result + 0x06;
            }
            if result > 0x99 {
                result = result + 0x60;
            }
            result
        } else {
            a as u16 + operand as u16 + carry as u16
        };

        self.state.set_c(
            if sum > 0xFF {
                1
            } else {
                0
            },
        );
        let result = (sum % 0x100) as u8;
        self.state.set_a(result);
        self.state.set_v(((a ^ result) & (operand ^ result) & 0x80) != 0);
        self.state.set_z(result);
        self.state.set_n(result);
    }

    fn sbc(&mut self, mode: AddressingMode)
        requires
            is_value_mode(mode),
        ensures
            final(self).state.x == old(self).state.x,
            final(self).state.y == old(self).state.y,
            final(self).state.sp == old(self).state.sp,
            final(self).state.cycles == old(self).state.cycles,
            final(self).state.pc == w16(old(self).state.pc + operand_len(mode)),
            final(self).state.mem_same(old(self).state),
            old(self).state.operand_plain(mode) ==> ({
                let e = sbc_effect(
                    old(self).state.a,
                    old(self).state.status,
                    old(self).state.operand(mode),
                );
                final(self).state.a == e.0 && final(self).state.status == e.1
            }),
    {
        let operand = self.state.fetch_operand(mode);
        self.sbc_value(operand);
    }

    /// The arithmetic core of SBC, on an already fetched operand.
    #[verifier::rlimit(100)]
    #[verifier::spinoff_prover]
    fn sbc_value(&mut self, operand: u8)
        ensures
            final(self).state.x == old(self).state.x,
            final(self).state.y == old(self).state.y,
            final(self).state.sp == old(self).state.sp,
            final(self).state.pc == old(self).state.pc,
            final(self).state.cycles == old(self).state.cycles,
            final(self).state.mem_same(old(self).state),
            ({
                let e = sbc_effect(old(self).state.a, old(self).state.status, operand);
                final(self).state.a == e.0 && final(self).state.status == e.1
            }),
    {
        let a = self.state.get_a();
        let carry = self.state.get_c();

        let sum: u16 = if self.state.get_d() == 1 {
            proof {
                crate::state::lemma_flag_bits_bounded(self.state.status);
            }
            let mut result: u16 = a as u16 + (!operand) as u16 + carry as u16;
            if ((a & 0x0F) as u16) < (operand & 0x0F) as u16 + 1 - carry as u16 {
                result = result.wrapping_sub(0x06);
            }
            if result < 0x100 {
                result = result.wrapping_sub(0x60);
            }
            result
        } else {
            a as u16 + (!operand) as u16 + carry as u16
        };

        self.state.set_c(
            if sum > 0xFF {
                1
            } else {
                0
            },
        );
        let result = (sum % 0x100) as u8;
        self.state.set_a(result);
        self.state.set_v(((a ^ result) & (!operand ^ result) & 0x80) != 0);
        self.state.set_z(result);
        self.state.set_n(result);
    }

    fn asl(&mut self, mode: AddressingMode)
        requires
            mode == AddressingMode::ACC || is_address_mode(mode),
        ensures
            final(self).state.x == old(self).state.x,
            final(self).state.y == old(self).state.y,
            final(self).state.sp == old(self).state.sp,
            final(self).state.cycles == old(self).state.cycles,
            final(self).state.pc == w16(old(self).state.pc + operand_len(mode)),
            final(self).state.plain_same(old(self).state),
            mode == AddressingMode::ACC ==> ({
                &&& final(self).state.a == (old(self).state.a << 1)
                &&& final(self).state.status == st_set_n(
                    st_set_z(
                        st_set_c(old(self).state.status, ((old(self).state.a & 0x80) >> 7)),
                        final(self).state.a,
                    ),
                    final(self).state.a,
                )
                &&& final(self).state.ram() == old(self).state.ram()
            }),
            mode != AddressingMode::ACC ==> final(self).state.a == old(self).state.a,
            mode != AddressingMode::ACC && old(self).state.ea_plain(mode) && old(self).state.plain(
                old(self).state.ea(mode),
            ) ==> ({
                let ea = old(self).state.ea(mode);
                let v = old(self).state.ram()[ea as int];
                let r = (v << 1) as u8;
                &&& final(self).state.ram() == old(self).state.ram().update(ea as int, r)
                &&& final(self).state.status == st_set_n(
                    st_set_z(st_set_c(old(self).state.status, ((v & 0x80) >> 7)), r),
                    r,
                )
            }),
    {
        match mode {
            AddressingMode::ACC => {
                let c = (self.state.a & 0x80) >> 7;
                let result = self.state.a << 1;
                self.state.set_a(result);
                self.state.set_c(c);
                self.state.set_z(result);
                self.state.set_n(result);
            },
            _ => {
                let address = self.state.resolve_address(mode);
                let value = self.state.read_byte(address);
                let c = (value & 0x80) >> 7;
                let result = value << 1;
                self.state.write_byte(address, result);
                self.state.set_c(c);
                self.state.set_z(result);
                self.state.set_n(result);
            },
        }
    }

    fn rol(&mut self, mode: AddressingMode)
        requires
            mode == AddressingMode::ACC || is_address_mode(mode),
        ensures
            final(self).state.x == old(self).state.x,
            final(self).state.y == old(self).state.y,
            final(self).state.sp == old(self).state.sp,
            final(self).state.cycles == old(self).state.cycles,
            final(self).state.pc == w16(old(self).state.pc + operand_len(mode)),
            final(self).state.plain_same(old(self).state),
            mode == AddressingMode::ACC ==> ({
                &&& final(self).state.a == ((old(self).state.a << 1) | st_c(old(self).state.status))
                &&& final(self).state.status == st_set_n(
                    st_set_z(
                        st_set_c(old(self).state.status, ((old(self).state.a & 0x80) >> 7)),
                        final(self).state.a,
                    ),
                    final(self).state.a,
                )
                &&& final(self).state.ram() == old(self).state.ram()
            }),
            mode != AddressingMode::ACC ==> final(self).state.a == old(self).state.a,
            mode != AddressingMode::ACC && old(self).state.ea_plain(mode) && old(self).state.plain(
                old(self).state.ea(mode),
            ) ==> ({
                let ea = old(self).state.ea(mode);
                let v = old(self).state.ram()[ea as int];
                let r = ((v << 1) | st_c(old(self).state.status)) as u8;
                &&& final(self).state.ram() == old(self).state.ram().update(ea as int, r)
                &&& final(self).state.status == st_set_n(
                    st_set_z(st_set_c(old(self).state.status, ((v & 0x80) >> 7)), r),
                    r,
                )
            }),
    {
        match mode {
            AddressingMode::ACC => {
                let c = (self.state.a & 0x80) >> 7;
                let result = (self.state.a << 1) | self.state.get_c();
                self.state.set_a(result);
                self.state.set_c(c);
                self.state.set_z(result);
                self.state.set_n(result);
            },
            _ => {
                let address = self.state.resolve_address(mode);
                let value = self.state.read_byte(address);
                let c = (value & 0x80) >> 7;
                let result = (value << 1) | self.state.get_c();
                self.state.write_byte(address, result);
                self.state.set_c(c);
                self.state.set_z(result);
                self.state.set_n(result);
            },
        }
    }

    fn lsr(&mut self, mode: AddressingMode)
        requires
            mode == AddressingMode::ACC || is_address_mode(mode),
        ensures
            final(self).state.x == old(self).state.x,
            final(self).state.y == old(self).state.y,
            final(self).state.sp == old(self).state.sp,
            final(self).state.cycles == old(self).state.cycles,
            final(self).state.pc == w16(old(self).state.pc + operand_len(mode)),
            final(self).state.plain_same(old(self).state),
            mode == AddressingMode::ACC ==> ({
                &&& final(self).state.a == (old(self).state.a >> 1)
                &&& final(self).state.status == st_set_n(
                    st_set_z(
                        st_set_c(old(self).state.status, (old(self).state.a & 0x01)),
                        final(self).state.a,
                    ),
                    final(self).state.a,
                )
                &&& final(self).state.ram() == old(self).state.ram()
            }),
            mode != AddressingMode::ACC ==> final(self).state.a == old(self).state.a,
            mode != AddressingMode::ACC && old(self).state.ea_plain(mode) && old(self).state.plain(
                old(self).state.ea(mode),
            ) ==> ({
                let ea = old(self).state.ea(mode);
                let v = old(self).state.ram()[ea as int];
                let r = (v >> 1) as u8;
                &&& final(self).state.ram() == old(self).state.ram().update(ea as int, r)
                &&& final(self).state.status == st_set_n(
                    st_set_z(st_set_c(old(self).state.status, (v & 0x01)), r),
                    r,
                )
            }),
    {
        match mode {
            AddressingMode::ACC => {
                let c = self.state.a & 0x01;
                let result = self.state.a >> 1;
                self.state.set_a(result);
                self.state.set_c(c);
                self.state.set_z(result);
                self.state.set_n(result);
            },
            _ => {
                let address = self.state.resolve_address(mode);
                let value = self.state.read_byte(address);
                let c = value & 0x01;
                let result = value >> 1;
                self.state.write_byte(address, result);
                self.state.set_c(c);
                self.state.set_z(result);
                self.state.set_n(result);
            },
        }
    }

    fn ror(&mut self, mode: AddressingMode)
        requires
            mode == AddressingMode::ACC || is_address_mode(mode),
        ensures
            final(self).state.x == old(self).state.x,
            final(self).state.y == old(self).state.y,
            final(self).state.sp == old(self).state.sp,
            final(self).state.cycles == old(self).state.cycles,
            final(self).state.pc == w16(old(self).state.pc + operand_len(mode)),
            final(self).state.plain_same(old(self).state),
            mode == AddressingMode::ACC ==> ({
                &&& final(self).state.a == ((old(self).state.a >> 1) | (st_c(old(self).state.status)
                    << 7))
                &&& final(self).state.status == st_set_n(
                    st_set_z(
                        st_set_c(old(self).state.status, (old(self).state.a & 0x01)),
                        final(self).state.a,
                    ),
                    final(self).state.a,
                )
                &&& final(self).state.ram() == old(self).state.ram()
            }),
            mode != AddressingMode::ACC ==> final(self).state.a == old(self).state.a,
            mode != AddressingMode::ACC && old(self).state.ea_plain(mode) && old(self).state.plain(
                old(self).state.ea(mode),
            ) ==> ({
                let ea = old(self).state.ea(mode);
                let v = old(self).state.ram()[ea as int];
                let r = ((v >> 1) | (st_c(old(self).state.status) << 7)) as u8;
                &&& final(self).state.ram() == old(self).state.ram().update(ea as int, r)
                &&& final(self).state.status == st_set_n(
                    st_set_z(st_set_c(old(self).state.status, (v & 0x01)), r),
                    r,
                )
            }),
    {
        match mode {
            AddressingMode::ACC => {
                let c = self.state.a & 0x01;
                let result = (self.state.a >> 1) | (self.state.get_c() << 7);
                self.state.set_a(result);
                self.state.set_c(c);
                self.state.set_z(result);
                self.state.set_n(result);
            },
            _ => {
                let address = self.state.resolve_address(mode);
                let value = self.state.read_byte(address);
                let c = value & 0x01;
                let result = (value >> 1) | (self.state.get_c() << 7);
                self.state.write_byte(address, result);
                self.state.set_c(c);
                self.state.set_z(result);
                self.state.set_n(result);
            },
        }
    }

    fn inc(&mut self, mode: AddressingMode)
        requires
            is_address_mode(mode),
        ensures
            final(self).state.a == old(self).state.a,
            final(self).state.x == old(self).state.x,
            final(self).state.y == old(self).state.y,
            final(self).state.sp == old(self).state.sp,
            final(self).state.cycles == old(self).state.cycles,
            final(self).state.pc == w16(old(self).state.pc + operand_len(mode)),
            final(self).state.plain_same(old(self).state),
            old(self).state.ea_plain(mode) && old(self).state.plain(old(self).state.ea(mode))
                ==> ({
                let ea = old(self).state.ea(mode);
                let r = w8(old(self).state.ram()[ea as int] + 1);
                &&& final(self).state.ram() == old(self).state.ram().update(ea as int, r)
                &&& final(self).state.status == st_set_n(
                    st_set_z(old(self).state.status, r),
                    r,
                )
            }),
    {
        let address = self.state.resolve_address(mode);
        let value = self.state.read_byte(address);
        let result = value.wrapping_add(1);
        self.state.write_byte(address, result);
        self.state.set_z(result);
        self.state.set_n(result);
    }

    fn dec(&mut self, mode: AddressingMode)
        requires
            is_address_mode(mode),
        ensures
            final(self).state.a == old(self).state.a,
            final(self).state.x == old(self).state.x,
            final(self).state.y == old(self).state.y,
            final(self).state.sp == old(self).state.sp,
            final(self).state.cycles == old(self).state.cycles,
            final(self).state.pc == w16(old(self).state.pc + operand_len(mode)),
            final(self).state.plain_same(old(self).state),
            old(self).state.ea_plain(mode) && old(self).state.plain(old(self).state.ea(mode))
                ==> ({
                let ea = old(self).state.ea(mode);
                let r = w8(old(self).state.ram()[ea as int] - 1);
                &&& final(self).state.ram() == old(self).state.ram().update(ea as int, r)
                &&& final(self).state.status == st_set_n(
                    st_set_z(old(self).state.status, r),
                    r,
                )
            }),
    {
        let address = self.state.resolve_address(mode);
        let value = self.state.read_byte(address);
        let result = value.wrapping_sub(1);
        self.state.write_byte(address, result);
        self.state.set_z(result);
        self.state.set_n(result);
    }

    fn pha(&mut self)
        ensures
            final(self).state.sp == w8(old(self).state.sp - 1),
            final(self).state.a == old(self).state.a,
            final(self).state.x == old(self).state.x,
            final(self).state.y == old(self).state.y,
            final(self).state.pc == old(self).state.pc,
            final(self).state.status == old(self).state.status,
            final(self).state.cycles == old(self).state.cycles,
            final(self).state.plain_same(old(self).state),
            final(self).state.ram() == upd_if(
                old(self).state.ram(),
                old(self).state.plain(stack_addr(old(self).state.sp)),
                stack_addr(old(self).state.sp),
                old(self).state.a,
            ),
    {
        let a = self.state.a;
        self.state.push_byte(a);
    }

    /// PHP pushes the status with the break flag and bit 5 set in the copy.
    fn php(&mut self)
        ensures
            final(self).state.sp == w8(old(self).state.sp - 1),
            final(self).state.a == old(self).state.a,
            final(self).state.x == old(self).state.x,
            final(self).state.y == old(self).state.y,
            final(self).state.pc == old(self).state.pc,
            final(self).state.status == old(self).state.status,
            final(self).state.cycles == old(self).state.cycles,
            final(self).state.plain_same(old(self).state),
            final(self).state.ram() == upd_if(
                old(self).state.ram(),
                old(self).state.plain(stack_addr(old(self).state.sp)),
                stack_addr(old(self).state.sp),
                (old(self).state.status | 0x30),
            ),
    {
        let status = self.state.status | 0x30;
        self.state.push_byte(status);
    }

    fn pla(&mut self)
        ensures
            final(self).state.sp == w8(old(self).state.sp + 1),
            final(self).state.x == old(self).state.x,
            final(self).state.y == old(self).state.y,
            final(self).state.pc == old(self).state.pc,
            final(self).state.cycles == old(self).state.cycles,
            final(self).state.mem_same(old(self).state),
            final(self).state.status == st_set_n(
                st_set_z(old(self).state.status, final(self).state.a),
                final(self).state.a,
            ),
            old(self).state.plain(stack_addr(w8(old(self).state.sp + 1))) ==> final(self).state.a
                == old(self).state.ram()[stack_addr(w8(old(self).state.sp + 1)) as int],
    {
        let value = self.state.pop_byte();
        self.state.set_a(value);
        let a = self.state.a;
        self.state.set_z(a);
        self.state.set_n(a);
    }

    /// PLP loads the status from the stack, with the break flag forced to 0.
    fn plp(&mut self)
        ensures
            final(self).state.sp == w8(old(self).state.sp + 1),
            final(self).state.a == old(self).state.a,
            final(self).state.x == old(self).state.x,
            final(self).state.y == old(self).state.y,
            final(self).state.pc == old(self).state.pc,
            final(self).state.cycles == old(self).state.cycles,
            final(self).state.mem_same(old(self).state),
            old(self).state.plain(stack_addr(w8(old(self).state.sp + 1))) ==> final(self).state.status == (old(self).state.ram()[stack_addr(
                w8(old(self).state.sp + 1),
            ) as int] & 0xEF),
    {
        let value = self.state.pop_byte();
        self.state.status = value & 0xEF;
    }

    fn jmp(&mut self, mode: AddressingMode)
        requires
            is_address_mode(mode),
        ensures
            final(self).state.a == old(self).state.a,
            final(self).state.x == old(self).state.x,
            final(self).state.y == old(self).state.y,
            final(self).state.sp == old(self).state.sp,
            final(self).state.status == old(self).state.status,
            final(self).state.cycles == old(self).state.cycles,
            final(self).state.mem_same(old(self).state),
            old(self).state.ea_plain(mode) ==> final(self).state.pc == old(self).state.ea(mode),
    {
        let address = self.state.resolve_address(mode);
        self.state.set_pc(address);
    }

    /// JSR pushes the address of its operand's high byte (`PC - 1` after the
    /// operand has been consumed), then jumps to the target.
    fn jsr(&mut self, mode: AddressingMode)
        requires
            is_address_mode(mode),
        ensures
            final(self).state.a == old(self).state.a,
            final(self).state.x == old(self).state.x,
            final(self).state.y == old(self).state.y,
            final(self).state.status == old(self).state.status,
            final(self).state.cycles == old(self).state.cycles,
            final(self).state.sp == w8(old(self).state.sp - 2),
            final(self).state.plain_same(old(self).state),
            final(self).state.ram() == ({
                let ret = w16(old(self).state.pc + operand_len(mode) - 1);
                upd_if(
                    upd_if(
                        old(self).state.ram(),
                        old(self).state.plain(stack_addr(old(self).state.sp)),
                        stack_addr(old(self).state.sp),
                        hi8(ret),
                    ),
                    old(self).state.plain(stack_addr(w8(old(self).state.sp - 1))),
                    stack_addr(w8(old(self).state.sp - 1)),
                    lo8(ret),
                )
            }),
            old(self).state.ea_plain(mode) ==> final(self).state.pc == old(self).state.ea(mode),
    {
        let address = self.state.resolve_address(mode);
        let return_address = self.state.pc.wrapping_sub(1);
        self.state.push_word(return_address);
        self.state.set_pc(address);
    }

    /// RTS pops the return address and resumes one byte past it.
    fn rts(&mut self)
        ensures
            final(self).state.a == old(self).state.a,
            final(self).state.x == old(self).state.x,
            final(self).state.y == old(self).state.y,
            final(self).state.status == old(self).state.status,
            final(self).state.cycles == old(self).state.cycles,
            final(self).state.sp == w8(old(self).state.sp + 2),
            final(self).state.mem_same(old(self).state),
            old(self).state.plain(stack_addr(w8(old(self).state.sp + 1))) && old(self).state.plain(
                stack_addr(w8(old(self).state.sp + 2)),
            ) ==> final(self).state.pc == w16(
                word_from(
                    old(self).state.ram()[stack_addr(w8(old(self).state.sp + 1)) as int],
                    old(self).state.ram()[stack_addr(w8(old(self).state.sp + 2)) as int],
                ) + 1,
            ),
    {
        let return_address = self.state.pop_word();
        self.state.set_pc(return_address.wrapping_add(1));
    }

    fn bpl(&mut self, mode: AddressingMode)
        requires
            mode == AddressingMode::REL,
        ensures
            final(self).state.a == old(self).state.a,
            final(self).state.x == old(self).state.x,
            final(self).state.y == old(self).state.y,
            final(self).state.sp == old(self).state.sp,
            final(self).state.status == old(self).state.status,
            final(self).state.cycles == old(self).state.cycles,
            final(self).state.mem_same(old(self).state),
            st_n(old(self).state.status) != 0 ==> final(self).state.pc == w16(
                old(self).state.pc + 1,
            ),
            st_n(old(self).state.status) == 0 && old(self).state.plain(old(self).state.pc)
                ==> final(self).state.pc == w16(
                old(self).state.pc + 1 + sext8(old(self).state.ram()[old(self).state.pc as int]),
            ),
    {
        let address = self.state.resolve_address(mode);
        if self.state.get_n() == 0 {
            self.state.set_pc(address);
        }
    }

    fn bmi(&mut self, mode: AddressingMode)
        requires
            mode == AddressingMode::REL,
        ensures
            final(self).state.a == old(self).state.a,
            final(self).state.x == old(self).state.x,
            final(self).state.y == old(self).state.y,
            final(self).state.sp == old(self).state.sp,
            final(self).state.status == old(self).state.status,
            final(self).state.cycles == old(self).state.cycles,
            final(self).state.mem_same(old(self).state),
            st_n(old(self).state.status) != 1 ==> final(self).state.pc == w16(
                old(self).state.pc + 1,
            ),
            st_n(old(self).state.status) == 1 && old(self).state.plain(old(self).state.pc)
                ==> final(self).state.pc == w16(
                old(self).state.pc + 1 + sext8(old(self).state.ram()[old(self).state.pc as int]),
            ),
    {
        let address = self.state.resolve_address(mode);
        if self.state.get_n() == 1 {
            self.state.set_pc(address);
        }
    }

    fn bvc(&mut self, mode: AddressingMode)
        requires
            mode == AddressingMode::REL,
        ensures
            final(self).state.a == old(self).state.a,
            final(self).state.x == old(self).state.x,
            final(self).state.y == old(self).state.y,
            final(self).state.sp == old(self).state.sp,
            final(self).state.status == old(self).state.status,
            final(self).state.cycles == old(self).state.cycles,
            final(self).state.mem_same(old(self).state),
            st_v(old(self).state.status) != 0 ==> final(self).state.pc == w16(
                old(self).state.pc + 1,
            ),
            st_v(old(self).state.status) == 0 && old(self).state.plain(old(self).state.pc)
                ==> final(self).state.pc == w16(
                old(self).state.pc + 1 + sext8(old(self).state.ram()[old(self).state.pc as int]),
            ),
    {
        let address = self.state.resolve_address(mode);
        if self.state.get_v() == 0 {
            self.state.set_pc(address);
        }
    }

    fn bvs(&mut self, mode: AddressingMode)
        requires
            mode == AddressingMode::REL,
        ensures
            final(self).state.a == old(self).state.a,
            final(self).state.x == old(self).state.x,
            final(self).state.y == old(self).state.y,
            final(self).state.sp == old(self).state.sp,
            final(self).state.status == old(self).state.status,
            final(self).state.cycles == old(self).state.cycles,
            final(self).state.mem_same(old(self).state),
            st_v(old(self).state.status) != 1 ==> final(self).state.pc == w16(
                old(self).state.pc + 1,
            ),
            st_v(old(self).state.status) == 1 && old(self).state.plain(old(self).state.pc)
                ==> final(self).state.pc == w16(
                old(self).state.pc + 1 + sext8(old(self).state.ram()[old(self).state.pc as int]),
            ),
    {
        let address = self.state.resolve_address(mode);
        if self.state.get_v() == 1 {
            self.state.set_pc(address);
        }
    }

    fn bcc(&mut self, mode: AddressingMode)
        requires
            mode == AddressingMode::REL,
        ensures
            final(self).state.a == old(self).state.a,
            final(self).state.x == old(self).state.x,
            final(self).state.y == old(self).state.y,
            final(self).state.sp == old(self).state.sp,
            final(self).state.status == old(self).state.status,
            final(self).state.cycles == old(self).state.cycles,
            final(self).state.mem_same(old(self).state),
            st_c(old(self).state.status) != 0 ==> final(self).state.pc == w16(
                old(self).state.pc + 1,
            ),
            st_c(old(self).state.status) == 0 && old(self).state.plain(old(self).state.pc)
                ==> final(self).state.pc == w16(
                old(self).state.pc + 1 + sext8(old(self).state.ram()[old(self).state.pc as int]),
            ),
    {
        let address = self.state.resolve_address(mode);
        if self.state.get_c() == 0 {
            self.state.set_pc(address);
        }
    }

    fn bcs(&mut self, mode: AddressingMode)
        requires
            mode == AddressingMode::REL,
        ensures
            final(self).state.a == old(self).state.a,
            final(self).state.x == old(self).state.x,
            final(self).state.y == old(self).state.y,
            final(self).state.sp == old(self).state.sp,
            final(self).state.status == old(self).state.status,
            final(self).state.cycles == old(self).state.cycles,
            final(self).state.mem_same(old(self).state),
            st_c(old(self).state.status) != 1 ==> final(self).state.pc == w16(
                old(self).state.pc + 1,
            ),
            st_c(old(self).state.status) == 1 && old(self).state.plain(old(self).state.pc)
                ==> final(self).state.pc == w16(
                old(self).state.pc + 1 + sext8(old(self).state.ram()[old(self).state.pc as int]),
            ),
    {
        let address = self.state.resolve_address(mode);
        if self.state.get_c() == 1 {
            self.state.set_pc(address);
        }
    }

    fn bne(&mut self, mode: AddressingMode)
        requires
            mode == AddressingMode::REL,
        ensures
            final(self).state.a == old(self).state.a,
            final(self).state.x == old(self).state.x,
            final(self).state.y == old(self).state.y,
            final(self).state.sp == old(self).state.sp,
            final(self).state.status == old(self).state.status,
            final(self).state.cycles == old(self).state.cycles,
            final(self).state.mem_same(old(self).state),
            st_z(old(self).state.status) != 0 ==> final(self).state.pc == w16(
                old(self).state.pc + 1,
            ),
            st_z(old(self).state.status) == 0 && old(self).state.plain(old(self).state.pc)
                ==> final(self).state.pc == w16(
                old(self).state.pc + 1 + sext8(old(self).state.ram()[old(self).state.pc as int]),
            ),
    {
        let address = self.state.resolve_address(mode);
        if self.state.get_z() == 0 {
            self.state.set_pc(address);
        }
    }

    fn beq(&mut self, mode: AddressingMode)
        requires
            mode == AddressingMode::REL,
        ensures
            final(self).state.a == old(self).state.a,
            final(self).state.x == old(self).state.x,
            final(self).state.y == old(self).state.y,
            final(self).state.sp == old(self).state.sp,
            final(self).state.status == old(self).state.status,
            final(self).state.cycles == old(self).state.cycles,
            final(self).state.mem_same(old(self).state),
            st_z(old(self).state.status) != 1 ==> final(self).state.pc == w16(
                old(self).state.pc + 1,
            ),
            st_z(old(self).state.status) == 1 && old(self).state.plain(old(self).state.pc)
                ==> final(self).state.pc == w16(
                old(self).state.pc + 1 + sext8(old(self).state.ram()[old(self).state.pc as int]),
            ),
    {
        let address = self.state.resolve_address(mode);
        if self.state.get_z() == 1 {
            self.state.set_pc(address);
        }
    }

    /// BRK skips its signature byte, pushes PC and the status copy (break
    /// flag and bit 5 set), sets the interrupt-disable flag, and jumps
    /// through the IRQ vector.
    fn brk(&mut self)
        ensures
            final(self).state.a == old(self).state.a,
            final(self).state.x == old(self).state.x,
            final(self).state.y == old(self).state.y,
            final(self).state.cycles == old(self).state.cycles,
            final(self).state.sp == w8(old(self).state.sp - 3),
            final(self).state.status == (old(self).state.status | 0x04),
            final(self).state.plain_same(old(self).state),
            final(self).state.ram() == ({
                let ret = w16(old(self).state.pc + 1);
                upd_if(
                    upd_if(
                        upd_if(
                            old(self).state.ram(),
                            old(self).state.plain(stack_addr(old(self).state.sp)),
                            stack_addr(old(self).state.sp),
                            hi8(ret),
                        ),
                        old(self).state.plain(stack_addr(w8(old(self).state.sp - 1))),
                        stack_addr(w8(old(self).state.sp - 1)),
                        lo8(ret),
                    ),
                    old(self).state.plain(stack_addr(w8(old(self).state.sp - 2))),
                    stack_addr(w8(old(self).state.sp - 2)),
                    (old(self).state.status | 0x30),
                )
            }),
            old(self).state.plain(0xFFFE) && old(self).state.plain(0xFFFF) ==> final(self).state.pc
                == word_at(final(self).state.ram(), 0xFFFE),
    {
        self.state.pc = self.state.pc.wrapping_add(1);
        let return_address = self.state.pc;
        self.state.push_word(return_address);
        let status = self.state.status | 0x30;
        self.state.push_byte(status);
        let target = self.state.read_word(IRQ_VECTOR_ADDR);
        self.state.set_pc(target);
        self.state.status = self.state.status | 0x04;
    }

    /// RTI pops the status (break flag forced to 0), then the PC, with no
    /// one-byte adjustment, unlike RTS.
    fn rti(&mut self)
        ensures
            final(self).state.a == old(self).state.a,
            final(self).state.x == old(self).state.x,
            final(self).state.y == old(self).state.y,
            final(self).state.cycles == old(self).state.cycles,
            final(self).state.sp == w8(old(self).state.sp + 3),
            final(self).state.mem_same(old(self).state),
            old(self).state.plain(stack_addr(w8(old(self).state.sp + 1))) ==> final(self).state.status == (old(self).state.ram()[stack_addr(
                w8(old(self).state.sp + 1),
            ) as int] & 0xEF),
            old(self).state.plain(stack_addr(w8(old(self).state.sp + 2))) && old(self).state.plain(
                stack_addr(w8(old(self).state.sp + 3)),
            ) ==> final(self).state.pc == word_from(
                old(self).state.ram()[stack_addr(w8(old(self).state.sp + 2)) as int],
                old(self).state.ram()[stack_addr(w8(old(self).state.sp + 3)) as int],
            ),
    {
        let value = self.state.pop_byte();
        self.state.status = value & 0xEF;
        let address = self.state.pop_word();
        self.state.set_pc(address);
    }

    /// Run the executor for one decoded instruction; PC must point at the
    /// first operand byte.
    fn dispatch(&mut self, instruction: Instruction)
        requires
            crate::instruction::combo_ok(instruction.operation, instruction.mode),
        ensures
            final(self).state.plain_same(old(self).state),
            final(self).state.cycles == old(self).state.cycles,
            pc_linear(instruction.operation) ==> final(self).state.pc == w16(
                old(self).state.pc + operand_len(instruction.mode),
            ),
            is_branch(instruction.operation) && !branch_taken(
                instruction.operation,
                old(self).state.status,
            ) ==> final(self).state.pc == w16(old(self).state.pc + 1),
            is_branch(instruction.operation) && branch_taken(
                instruction.operation,
                old(self).state.status,
            ) && old(self).state.plain(old(self).state.pc) ==> final(self).state.pc == w16(
                old(self).state.pc + 1 + sext8(old(self).state.ram()[old(self).state.pc as int]),
            ),
            (instruction.operation == Operation::JMP || instruction.operation == Operation::JSR)
                && instruction.mode == AddressingMode::ABS && old(self).state.plain(
                old(self).state.pc,
            ) && old(self).state.plain(w16(old(self).state.pc + 1)) ==> final(self).state.pc
                == word_at(old(self).state.ram(), old(self).state.pc),
            instruction.operation == Operation::LDA ==> (final(self).state.x == old(self).state.x && final(self).state.y == old(self).state.y && final(self).state.sp == old(self).state.sp && final(self).state.ram() == old(self).state.ram() && final(self).state.status == st_set_n(st_set_z(old(self).state.status, final(self).state.a), final(self).state.a) && (old(self).state.operand_plain(instruction.mode) ==> final(self).state.a == old(self).state.operand(instruction.mode))),
            instruction.operation == Operation::LDX ==> (final(self).state.a == old(self).state.a && final(self).state.y == old(self).state.y && final(self).state.sp == old(self).state.sp && final(self).state.ram() == old(self).state.ram() && final(self).state.status == st_set_n(st_set_z(old(self).state.status, final(self).state.x), final(self).state.x) && (old(self).state.operand_plain(instruction.mode) ==> final(self).state.x == old(self).state.operand(instruction.mode))),
            instruction.operation == Operation::LDY ==> (final(self).state.a == old(self).state.a && final(self).state.x == old(self).state.x && final(self).state.sp == old(self).state.sp && final(self).state.ram() == old(self).state.ram() && final(self).state.status == st_set_n(st_set_z(old(self).state.status, final(self).state.y), final(self).state.y) && (old(self).state.operand_plain(instruction.mode) ==> final(self).state.y == old(self).state.operand(instruction.mode))),
            instruction.operation == Operation::ORA ==> (final(self).state.x == old(self).state.x && final(self).state.y == old(self).state.y && final(self).state.sp == old(self).state.sp && final(self).state.ram() == old(self).state.ram() && final(self).state.status == st_set_n(st_set_z(old(self).state.status, final(self).state.a), final(self).state.a) && (old(self).state.operand_plain(instruction.mode) ==> final(self).state.a == (old(self).state.a | old(self).state.operand(instruction.mode)))),
            instruction.operation == Operation::AND ==> (final(self).state.x == old(self).state.x && final(self).state.y == old(self).state.y && final(self).state.sp == old(self).state.sp && final(self).state.ram() == old(self).state.ram() && final(self).state.status == st_set_n(st_set_z(old(self).state.status, final(self).state.a), final(self).state.a) && (old(self).state.operand_plain(instruction.mode) ==> final(self).state.a == (old(self).state.a & old(self).state.operand(instruction.mode)))),
            instruction.operation == Operation::EOR ==> (final(self).state.x == old(self).state.x && final(self).state.y == old(self).state.y && final(self).state.sp == old(self).state.sp && final(self).state.ram() == old(self).state.ram() && final(self).state.status == st_set_n(st_set_z(old(self).state.status, final(self).state.a), final(self).state.a) && (old(self).state.operand_plain(instruction.mode) ==> final(self).state.a == (old(self).state.a ^ old(self).state.operand(instruction.mode)))),
            instruction.operation == Operation::ADC ==> (final(self).state.x == old(self).state.x && final(self).state.y == old(self).state.y && final(self).state.sp == old(self).state.sp && final(self).state.ram() == old(self).state.ram() && (old(self).state.operand_plain(instruction.mode) ==> ({ let e = adc_effect(old(self).state.a, old(self).state.status, old(self).state.operand(instruction.mode)); final(self).state.a == e.0 && final(self).state.status == e.1 }))),
            instruction.operation == Operation::SBC ==> (final(self).state.x == old(self).state.x && final(self).state.y == old(self).state.y && final(self).state.sp == old(self).state.sp && final(self).state.ram() == old(self).state.ram() && (old(self).state.operand_plain(instruction.mode) ==> ({ let e = sbc_effect(old(self).state.a, old(self).state.status, old(self).state.operand(instruction.mode)); final(self).state.a == e.0 && final(self).state.status == e.1 }))),
            instruction.operation == Operation::CMP ==> (final(self).state.a == old(self).state.a && final(self).state.x == old(self).state.x && final(self).state.y == old(self).state.y && final(self).state.sp == old(self).state.sp && final(self).state.ram() == old(self).state.ram() && (old(self).state.operand_plain(instruction.mode) ==> final(self).state.status == cmp_status(old(self).state.status, old(self).state.a, old(self).state.operand(instruction.mode)))),
            instruction.operation == Operation::CPX ==> (final(self).state.a == old(self).state.a && final(self).state.x == old(self).state.x && final(self).state.y == old(self).state.y && final(self).state.sp == old(self).state.sp && final(self).state.ram() == old(self).state.ram() && (old(self).state.operand_plain(instruction.mode) ==> final(self).state.status == cmp_status(old(self).state.status, old(self).state.x, old(self).state.operand(instruction.mode)))),
            instruction.operation == Operation::CPY ==> (final(self).state.a == old(self).state.a && final(self).state.x == old(self).state.x && final(self).state.y == old(self).state.y && final(self).state.sp == old(self).state.sp && final(self).state.ram() == old(self).state.ram() && (old(self).state.operand_plain(instruction.mode) ==> final(self).state.status == cmp_status(old(self).state.status, old(self).state.y, old(self).state.operand(instruction.mode)))),
            instruction.operation == Operation::BIT ==> (final(self).state.a == old(self).state.a && final(self).state.x == old(self).state.x && final(self).state.y == old(self).state.y && final(self).state.sp == old(self).state.sp && final(self).state.ram() == old(self).state.ram() && (old(self).state.operand_plain(instruction.mode) ==> ({ let v = old(self).state.operand(instruction.mode); final(self).state.status == st_set_v(st_set_n(st_set_z(old(self).state.status, (old(self).state.a & v)), v), (v & 0x40) != 0) }))),
            instruction.operation == Operation::STA ==> (final(self).state.a == old(self).state.a && final(self).state.x == old(self).state.x && final(self).state.y == old(self).state.y && final(self).state.sp == old(self).state.sp && final(self).state.status == old(self).state.status && (old(self).state.ea_plain(instruction.mode) ==> final(self).state.ram() == upd_if(old(self).state.ram(), old(self).state.plain(old(self).state.ea(instruction.mode)), old(self).state.ea(instruction.mode), old(self).state.a))),
            instruction.operation == Operation::STX ==> (final(self).state.a == old(self).state.a && final(self).state.x == old(self).state.x && final(self).state.y == old(self).state.y && final(self).state.sp == old(self).state.sp && final(self).state.status == old(self).state.status && (old(self).state.ea_plain(instruction.mode) ==> final(self).state.ram() == upd_if(old(self).state.ram(), old(self).state.plain(old(self).state.ea(instruction.mode)), old(self).state.ea(instruction.mode), old(self).state.x))),
            instruction.operation == Operation::STY ==> (final(self).state.a == old(self).state.a && final(self).state.x == old(self).state.x && final(self).state.y == old(self).state.y && final(self).state.sp == old(self).state.sp && final(self).state.status == old(self).state.status && (old(self).state.ea_plain(instruction.mode) ==> final(self).state.ram() == upd_if(old(self).state.ram(), old(self).state.plain(old(self).state.ea(instruction.mode)), old(self).state.ea(instruction.mode), old(self).state.y))),
            instruction.operation == Operation::INC ==> (final(self).state.a == old(self).state.a && final(self).state.x == old(self).state.x && final(self).state.y == old(self).state.y && final(self).state.sp == old(self).state.sp && (old(self).state.ea_plain(instruction.mode) && old(self).state.plain(old(self).state.ea(instruction.mode)) ==> ({ let ea = old(self).state.ea(instruction.mode); let r = w8(old(self).state.ram()[ea as int] + 1); final(self).state.ram() == old(self).state.ram().update(ea as int, r) && final(self).state.status == st_set_n(st_set_z(old(self).state.status, r), r) }))),
            instruction.operation == Operation::DEC ==> (final(self).state.a == old(self).state.a && final(self).state.x == old(self).state.x && final(self).state.y == old(self).state.y && final(self).state.sp == old(self).state.sp && (old(self).state.ea_plain(instruction.mode) && old(self).state.plain(old(self).state.ea(instruction.mode)) ==> ({ let ea = old(self).state.ea(instruction.mode); let r = w8(old(self).state.ram()[ea as int] - 1); final(self).state.ram() == old(self).state.ram().update(ea as int, r) && final(self).state.status == st_set_n(st_set_z(old(self).state.status, r), r) }))),
            instruction.operation == Operation::ASL ==> (final(self).state.x == old(self).state.x && final(self).state.y == old(self).state.y && final(self).state.sp == old(self).state.sp && (instruction.mode == AddressingMode::ACC ==> final(self).state.a == (old(self).state.a << 1) && final(self).state.ram() == old(self).state.ram() && final(self).state.status == st_set_n(st_set_z(st_set_c(old(self).state.status, ((old(self).state.a & 0x80) >> 7)), final(self).state.a), final(self).state.a)) && (instruction.mode != AddressingMode::ACC ==> final(self).state.a == old(self).state.a) && (instruction.mode != AddressingMode::ACC && old(self).state.ea_plain(instruction.mode) && old(self).state.plain(old(self).state.ea(instruction.mode)) ==> ({ let ea = old(self).state.ea(instruction.mode); let v = old(self).state.ram()[ea as int]; let r = (v << 1) as u8; final(self).state.ram() == old(self).state.ram().update(ea as int, r) && final(self).state.status == st_set_n(st_set_z(st_set_c(old(self).state.status, ((v & 0x80) >> 7)), r), r) }))),
            instruction.operation == Operation::LSR ==> (final(self).state.x == old(self).state.x && final(self).state.y == old(self).state.y && final(self).state.sp == old(self).state.sp && (instruction.mode == AddressingMode::ACC ==> final(self).state.a == (old(self).state.a >> 1) && final(self).state.ram() == old(self).state.ram() && final(self).state.status == st_set_n(st_set_z(st_set_c(old(self).state.status, (old(self).state.a & 0x01)), final(self).state.a), final(self).state.a)) && (instruction.mode != AddressingMode::ACC ==> final(self).state.a == old(self).state.a) && (instruction.mode != AddressingMode::ACC && old(self).state.ea_plain(instruction.mode) && old(self).state.plain(old(self).state.ea(instruction.mode)) ==> ({ let ea = old(self).state.ea(instruction.mode); let v = old(self).state.ram()[ea as int]; let r = (v >> 1) as u8; final(self).state.ram() == old(self).state.ram().update(ea as int, r) && final(self).state.status == st_set_n(st_set_z(st_set_c(old(self).state.status, (v & 0x01)), r), r) }))),
            instruction.operation == Operation::ROL ==> (final(self).state.x == old(self).state.x && final(self).state.y == old(self).state.y && final(self).state.sp == old(self).state.sp && (instruction.mode == AddressingMode::ACC ==> final(self).state.a == ((old(self).state.a << 1) | st_c(old(self).state.status)) && final(self).state.ram() == old(self).state.ram() && final(self).state.status == st_set_n(st_set_z(st_set_c(old(self).state.status, ((old(self).state.a & 0x80) >> 7)), final(self).state.a), final(self).state.a)) && (instruction.mode != AddressingMode::ACC ==> final(self).state.a == old(self).state.a) && (instruction.mode != AddressingMode::ACC && old(self).state.ea_plain(instruction.mode) && old(self).state.plain(old(self).state.ea(instruction.mode)) ==> ({ let ea = old(self).state.ea(instruction.mode); let v = old(self).state.ram()[ea as int]; let r = ((v << 1) | st_c(old(self).state.status)) as u8; final(self).state.ram() == old(self).state.ram().update(ea as int, r) && final(self).state.status == st_set_n(st_set_z(st_set_c(old(self).state.status, ((v & 0x80) >> 7)), r), r) }))),
            instruction.operation == Operation::ROR ==> (final(self).state.x == old(self).state.x && final(self).state.y == old(self).state.y && final(self).state.sp == old(self).state.sp && (instruction.mode == AddressingMode::ACC ==> final(self).state.a == ((old(self).state.a >> 1) | (st_c(old(self).state.status) << 7)) && final(self).state.ram() == old(self).state.ram() && final(self).state.status == st_set_n(st_set_z(st_set_c(old(self).state.status, (old(self).state.a & 0x01)), final(self).state.a), final(self).state.a)) && (instruction.mode != AddressingMode::ACC ==> final(self).state.a == old(self).state.a) && (instruction.mode != AddressingMode::ACC && old(self).state.ea_plain(instruction.mode) && old(self).state.plain(old(self).state.ea(instruction.mode)) ==> ({ let ea = old(self).state.ea(instruction.mode); let v = old(self).state.ram()[ea as int]; let r = ((v >> 1) | (st_c(old(self).state.status) << 7)) as u8; final(self).state.ram() == old(self).state.ram().update(ea as int, r) && final(self).state.status == st_set_n(st_set_z(st_set_c(old(self).state.status, (v & 0x01)), r), r) }))),
            instruction.operation == Operation::DEX ==> (final(self).state.x == w8(old(self).state.x - 1) && final(self).state.a == old(self).state.a && final(self).state.y == old(self).state.y && final(self).state.sp == old(self).state.sp && final(self).state.ram() == old(self).state.ram() && final(self).state.status == st_set_n(st_set_z(old(self).state.status, final(self).state.x), final(self).state.x)),
            instruction.operation == Operation::DEY ==> (final(self).state.y == w8(old(self).state.y - 1) && final(self).state.a == old(self).state.a && final(self).state.x == old(self).state.x && final(self).state.sp == old(self).state.sp && final(self).state.ram() == old(self).state.ram() && final(self).state.status == st_set_n(st_set_z(old(self).state.status, final(self).state.y), final(self).state.y)),
            instruction.operation == Operation::INX ==> (final(self).state.x == w8(old(self).state.x + 1) && final(self).state.a == old(self).state.a && final(self).state.y == old(self).state.y && final(self).state.sp == old(self).state.sp && final(self).state.ram() == old(self).state.ram() && final(self).state.status == st_set_n(st_set_z(old(self).state.status, final(self).state.x), final(self).state.x)),
            instruction.operation == Operation::INY ==> (final(self).state.y == w8(old(self).state.y + 1) && final(self).state.a == old(self).state.a && final(self).state.x == old(self).state.x && final(self).state.sp == old(self).state.sp && final(self).state.ram() == old(self).state.ram() && final(self).state.status == st_set_n(st_set_z(old(self).state.status, final(self).state.y), final(self).state.y)),
            instruction.operation == Operation::TXA ==> (final(self).state.a == old(self).state.x && final(self).state.x == old(self).state.x && final(self).state.y == old(self).state.y && final(self).state.sp == old(self).state.sp && final(self).state.ram() == old(self).state.ram() && final(self).state.status == st_set_n(st_set_z(old(self).state.status, final(self).state.a), final(self).state.a)),
            instruction.operation == Operation::TYA ==> (final(self).state.a == old(self).state.y && final(self).state.x == old(self).state.x && final(self).state.y == old(self).state.y && final(self).state.sp == old(self).state.sp && final(self).state.ram() == old(self).state.ram() && final(self).state.status == st_set_n(st_set_z(old(self).state.status, final(self).state.a), final(self).state.a)),
            instruction.operation == Operation::TAY ==> (final(self).state.y == old(self).state.a && final(self).state.a == old(self).state.a && final(self).state.x == old(self).state.x && final(self).state.sp == old(self).state.sp && final(self).state.ram() == old(self).state.ram() && final(self).state.status == st_set_n(st_set_z(old(self).state.status, final(self).state.y), final(self).state.y)),
            instruction.operation == Operation::TAX ==> (final(self).state.x == old(self).state.a && final(self).state.a == old(self).state.a && final(self).state.y == old(self).state.y && final(self).state.sp == old(self).state.sp && final(self).state.ram() == old(self).state.ram() && final(self).state.status == st_set_n(st_set_z(old(self).state.status, final(self).state.x), final(self).state.x)),
            instruction.operation == Operation::TSX ==> (final(self).state.x == old(self).state.sp && final(self).state.a == old(self).state.a && final(self).state.y == old(self).state.y && final(self).state.sp == old(self).state.sp && final(self).state.ram() == old(self).state.ram() && final(self).state.status == st_set_n(st_set_z(old(self).state.status, final(self).state.x), final(self).state.x)),
            instruction.operation == Operation::TXS ==> (final(self).state.sp == old(self).state.x && final(self).state.a == old(self).state.a && final(self).state.x == old(self).state.x && final(self).state.y == old(self).state.y && final(self).state.status == old(self).state.status && final(self).state.ram() == old(self).state.ram()),
            instruction.operation == Operation::CLC ==> (final(self).state.status == (old(self).state.status & 0xFE) && final(self).state.a == old(self).state.a && final(self).state.x == old(self).state.x && final(self).state.y == old(self).state.y && final(self).state.sp == old(self).state.sp && final(self).state.ram() == old(self).state.ram()),
            instruction.operation == Operation::SEC ==> (final(self).state.status == (old(self).state.status | 0x01) && final(self).state.a == old(self).state.a && final(self).state.x == old(self).state.x && final(self).state.y == old(self).state.y && final(self).state.sp == old(self).state.sp && final(self).state.ram() == old(self).state.ram()),
            instruction.operation == Operation::CLI ==> (final(self).state.status == (old(self).state.status & 0xFB) && final(self).state.a == old(self).state.a && final(self).state.x == old(self).state.x && final(self).state.y == old(self).state.y && final(self).state.sp == old(self).state.sp && final(self).state.ram() == old(self).state.ram()),
            instruction.operation == Operation::SEI ==> (final(self).state.status == (old(self).state.status | 0x04) && final(self).state.a == old(self).state.a && final(self).state.x == old(self).state.x && final(self).state.y == old(self).state.y && final(self).state.sp == old(self).state.sp && final(self).state.ram() == old(self).state.ram()),
            instruction.operation == Operation::CLV ==> (final(self).state.status == (old(self).state.status & 0xBF) && final(self).state.a == old(self).state.a && final(self).state.x == old(self).state.x && final(self).state.y == old(self).state.y && final(self).state.sp == old(self).state.sp && final(self).state.ram() == old(self).state.ram()),
            instruction.operation == Operation::CLD ==> (final(self).state.status == (old(self).state.status & 0xF7) && final(self).state.a == old(self).state.a && final(self).state.x == old(self).state.x && final(self).state.y == old(self).state.y && final(self).state.sp == old(self).state.sp && final(self).state.ram() == old(self).state.ram()),
            instruction.operation == Operation::SED ==> (final(self).state.status == st_set_d(old(self).state.status, 1) && final(self).state.a == old(self).state.a && final(self).state.x == old(self).state.x && final(self).state.y == old(self).state.y && final(self).state.sp == old(self).state.sp && final(self).state.ram() == old(self).state.ram()),
            instruction.operation == Operation::NOP ==> (final(self).state.a == old(self).state.a && final(self).state.x == old(self).state.x && final(self).state.y == old(self).state.y && final(self).state.sp == old(self).state.sp && final(self).state.status == old(self).state.status && final(self).state.ram() == old(self).state.ram()),
            instruction.operation == Operation::PHA ==> (final(self).state.sp == w8(old(self).state.sp - 1) && final(self).state.a == old(self).state.a && final(self).state.x == old(self).state.x && final(self).state.y == old(self).state.y && final(self).state.status == old(self).state.status && final(self).state.ram() == upd_if(old(self).state.ram(), old(self).state.plain(stack_addr(old(self).state.sp)), stack_addr(old(self).state.sp), old(self).state.a)),
            instruction.operation == Operation::PHP ==> (final(self).state.sp == w8(old(self).state.sp - 1) && final(self).state.a == old(self).state.a && final(self).state.x == old(self).state.x && final(self).state.y == old(self).state.y && final(self).state.status == old(self).state.status && final(self).state.ram() == upd_if(old(self).state.ram(), old(self).state.plain(stack_addr(old(self).state.sp)), stack_addr(old(self).state.sp), (old(self).state.status | 0x30))),
            instruction.operation == Operation::PLA ==> (final(self).state.sp == w8(old(self).state.sp + 1) && final(self).state.x == old(self).state.x && final(self).state.y == old(self).state.y && final(self).state.ram() == old(self).state.ram() && final(self).state.status == st_set_n(st_set_z(old(self).state.status, final(self).state.a), final(self).state.a) && (old(self).state.plain(stack_addr(w8(old(self).state.sp + 1))) ==> final(self).state.a == old(self).state.ram()[stack_addr(w8(old(self).state.sp + 1)) as int])),
            instruction.operation == Operation::PLP ==> (final(self).state.sp == w8(old(self).state.sp + 1) && final(self).state.a == old(self).state.a && final(self).state.x == old(self).state.x && final(self).state.y == old(self).state.y && final(self).state.ram() == old(self).state.ram() && (old(self).state.plain(stack_addr(w8(old(self).state.sp + 1))) ==> final(self).state.status == (old(self).state.ram()[stack_addr(w8(old(self).state.sp + 1)) as int] & 0xEF))),
            is_branch(instruction.operation) ==> (final(self).state.a == old(self).state.a && final(self).state.x == old(self).state.x && final(self).state.y == old(self).state.y && final(self).state.sp == old(self).state.sp && final(self).state.status == old(self).state.status && final(self).state.ram() == old(self).state.ram()),
            instruction.operation == Operation::JMP ==> (final(self).state.a == old(self).state.a && final(self).state.x == old(self).state.x && final(self).state.y == old(self).state.y && final(self).state.sp == old(self).state.sp && final(self).state.status == old(self).state.status && final(self).state.ram() == old(self).state.ram() && (old(self).state.ea_plain(instruction.mode) ==> final(self).state.pc == old(self).state.ea(instruction.mode))),
            instruction.operation == Operation::JSR ==> (final(self).state.sp == w8(old(self).state.sp - 2) && final(self).state.a == old(self).state.a && final(self).state.x == old(self).state.x && final(self).state.y == old(self).state.y && final(self).state.status == old(self).state.status && final(self).state.ram() == upd_if(upd_if(old(self).state.ram(), old(self).state.plain(stack_addr(old(self).state.sp)), stack_addr(old(self).state.sp), hi8(w16(old(self).state.pc + operand_len(instruction.mode) - 1))), old(self).state.plain(stack_addr(w8(old(self).state.sp - 1))), stack_addr(w8(old(self).state.sp - 1)), lo8(w16(old(self).state.pc + operand_len(instruction.mode) - 1))) && (old(self).state.ea_plain(instruction.mode) ==> final(self).state.pc == old(self).state.ea(instruction.mode))),
            instruction.operation == Operation::RTS ==> (final(self).state.sp == w8(old(self).state.sp + 2) && final(self).state.a == old(self).state.a && final(self).state.x == old(self).state.x && final(self).state.y == old(self).state.y && final(self).state.status == old(self).state.status && final(self).state.ram() == old(self).state.ram() && (old(self).state.plain(stack_addr(w8(old(self).state.sp + 1))) && old(self).state.plain(stack_addr(w8(old(self).state.sp + 2))) ==> final(self).state.pc == w16(word_from(old(self).state.ram()[stack_addr(w8(old(self).state.sp + 1)) as int], old(self).state.ram()[stack_addr(w8(old(self).state.sp + 2)) as int]) + 1))),
            instruction.operation == Operation::RTI ==> (final(self).state.sp == w8(old(self).state.sp + 3) && final(self).state.a == old(self).state.a && final(self).state.x == old(self).state.x && final(self).state.y == old(self).state.y && final(self).state.ram() == old(self).state.ram() && (old(self).state.plain(stack_addr(w8(old(self).state.sp + 1))) ==> final(self).state.status == (old(self).state.ram()[stack_addr(w8(old(self).state.sp + 1)) as int] & 0xEF)) && (old(self).state.plain(stack_addr(w8(old(self).state.sp + 2))) && old(self).state.plain(stack_addr(w8(old(self).state.sp + 3))) ==> final(self).state.pc == word_from(old(self).state.ram()[stack_addr(w8(old(self).state.sp + 2)) as int], old(self).state.ram()[stack_addr(w8(old(self).state.sp + 3)) as int]))),
            instruction.operation == Operation::BRK ==> (final(self).state.sp == w8(old(self).state.sp - 3) && final(self).state.a == old(self).state.a && final(self).state.x == old(self).state.x && final(self).state.y == old(self).state.y && final(self).state.status == (old(self).state.status | 0x04) && final(self).state.ram() == upd_if(upd_if(upd_if(old(self).state.ram(), old(self).state.plain(stack_addr(old(self).state.sp)), stack_addr(old(self).state.sp), hi8(w16(old(self).state.pc + 1))), old(self).state.plain(stack_addr(w8(old(self).state.sp - 1))), stack_addr(w8(old(self).state.sp - 1)), lo8(w16(old(self).state.pc + 1))), old(self).state.plain(stack_addr(w8(old(self).state.sp - 2))), stack_addr(w8(old(self).state.sp - 2)), (old(self).state.status | 0x30)) && (old(self).state.plain(0xFFFE) && old(self).state.plain(0xFFFF) ==> final(self).state.pc == word_at(final(self).state.ram(), 0xFFFE))),
    {
        match instruction.operation {
            Operation::BRK | Operation::JMP | Operation::JSR | Operation::RTS | Operation::RTI
            | Operation::BPL | Operation::BMI | Operation::BVC | Operation::BVS | Operation::BCC
            | Operation::BCS | Operation::BNE | Operation::BEQ => self.dispatch_control(
                instruction,
            ),
            _ => self.dispatch_data(instruction),
        }
    }

    /// The operations after which PC advances by the instruction length and
    /// the cycle counter is left to the caller.
    fn dispatch_data(&mut self, instruction: Instruction)
        requires
            crate::instruction::combo_ok(instruction.operation, instruction.mode),
            pc_linear(instruction.operation),
        ensures
            final(self).state.plain_same(old(self).state),
            final(self).state.cycles == old(self).state.cycles,
            final(self).state.pc == w16(old(self).state.pc + operand_len(instruction.mode)),
            instruction.operation == Operation::LDA ==> (final(self).state.x == old(self).state.x && final(self).state.y == old(self).state.y && final(self).state.sp == old(self).state.sp && final(self).state.ram() == old(self).state.ram() && final(self).state.status == st_set_n(st_set_z(old(self).state.status, final(self).state.a), final(self).state.a) && (old(self).state.operand_plain(instruction.mode) ==> final(self).state.a == old(self).state.operand(instruction.mode))),
            instruction.operation == Operation::LDX ==> (final(self).state.a == old(self).state.a && final(self).state.y == old(self).state.y && final(self).state.sp == old(self).state.sp && final(self).state.ram() == old(self).state.ram() && final(self).state.status == st_set_n(st_set_z(old(self).state.status, final(self).state.x), final(self).state.x) && (old(self).state.operand_plain(instruction.mode) ==> final(self).state.x == old(self).state.operand(instruction.mode))),
            instruction.operation == Operation::LDY ==> (final(self).state.a == old(self).state.a && final(self).state.x == old(self).state.x && final(self).state.sp == old(self).state.sp && final(self).state.ram() == old(self).state.ram() && final(self).state.status == st_set_n(st_set_z(old(self).state.status, final(self).state.y), final(self).state.y) && (old(self).state.operand_plain(instruction.mode) ==> final(self).state.y == old(self).state.operand(instruction.mode))),
            instruction.operation == Operation::ORA ==> (final(self).state.x == old(self).state.x && final(self).state.y == old(self).state.y && final(self).state.sp == old(self).state.sp && final(self).state.ram() == old(self).state.ram() && final(self).state.status == st_set_n(st_set_z(old(self).state.status, final(self).state.a), final(self).state.a) && (old(self).state.operand_plain(instruction.mode) ==> final(self).state.a == (old(self).state.a | old(self).state.operand(instruction.mode)))),
            instruction.operation == Operation::AND ==> (final(self).state.x == old(self).state.x && final(self).state.y == old(self).state.y && final(self).state.sp == old(self).state.sp && final(self).state.ram() == old(self).state.ram() && final(self).state.status == st_set_n(st_set_z(old(self).state.status, final(self).state.a), final(self).state.a) && (old(self).state.operand_plain(instruction.mode) ==> final(self).state.a == (old(self).state.a & old(self).state.operand(instruction.mode)))),
            instruction.operation == Operation::EOR ==> (final(self).state.x == old(self).state.x && final(self).state.y == old(self).state.y && final(self).state.sp == old(self).state.sp && final(self).state.ram() == old(self).state.ram() && final(self).state.status == st_set_n(st_set_z(old(self).state.status, final(self).state.a), final(self).state.a) && (old(self).state.operand_plain(instruction.mode) ==> final(self).state.a == (old(self).state.a ^ old(self).state.operand(instruction.mode)))),
            instruction.operation == Operation::ADC ==> (final(self).state.x == old(self).state.x && final(self).state.y == old(self).state.y && final(self).state.sp == old(self).state.sp && final(self).state.ram() == old(self).state.ram() && (old(self).state.operand_plain(instruction.mode) ==> ({ let e = adc_effect(old(self).state.a, old(self).state.status, old(self).state.operand(instruction.mode)); final(self).state.a == e.0 && final(self).state.status == e.1 }))),
            instruction.operation == Operation::SBC ==> (final(self).state.x == old(self).state.x && final(self).state.y == old(self).state.y && final(self).state.sp == old(self).state.sp && final(self).state.ram() == old(self).state.ram() && (old(self).state.operand_plain(instruction.mode) ==> ({ let e = sbc_effect(old(self).state.a, old(self).state.status, old(self).state.operand(instruction.mode)); final(self).state.a == e.0 && final(self).state.status == e.1 }))),
            instruction.operation == Operation::CMP ==> (final(self).state.a == old(self).state.a && final(self).state.x == old(self).state.x && final(self).state.y == old(self).state.y && final(self).state.sp == old(self).state.sp && final(self).state.ram() == old(self).state.ram() && (old(self).state.operand_plain(instruction.mode) ==> final(self).state.status == cmp_status(old(self).state.status, old(self).state.a, old(self).state.operand(instruction.mode)))),
            instruction.operation == Operation::CPX ==> (final(self).state.a == old(self).state.a && final(self).state.x == old(self).state.x && final(self).state.y == old(self).state.y && final(self).state.sp == old(self).state.sp && final(self).state.ram() == old(self).state.ram() && (old(self).state.operand_plain(instruction.mode) ==> final(self).state.status == cmp_status(old(self).state.status, old(self).state.x, old(self).state.operand(instruction.mode)))),
            instruction.operation == Operation::CPY ==> (final(self).state.a == old(self).state.a && final(self).state.x == old(self).state.x && final(self).state.y == old(self).state.y && final(self).state.sp == old(self).state.sp && final(self).state.ram() == old(self).state.ram() && (old(self).state.operand_plain(instruction.mode) ==> final(self).state.status == cmp_status(old(self).state.status, old(self).state.y, old(self).state.operand(instruction.mode)))),
            instruction.operation == Operation::BIT ==> (final(self).state.a == old(self).state.a && final(self).state.x == old(self).state.x && final(self).state.y == old(self).state.y && final(self).state.sp == old(self).state.sp && final(self).state.ram() == old(self).state.ram() && (old(self).state.operand_plain(instruction.mode) ==> ({ let v = old(self).state.operand(instruction.mode); final(self).state.status == st_set_v(st_set_n(st_set_z(old(self).state.status, (old(self).state.a & v)), v), (v & 0x40) != 0) }))),
            instruction.operation == Operation::STA ==> (final(self).state.a == old(self).state.a && final(self).state.x == old(self).state.x && final(self).state.y == old(self).state.y && final(self).state.sp == old(self).state.sp && final(self).state.status == old(self).state.status && (old(self).state.ea_plain(instruction.mode) ==> final(self).state.ram() == upd_if(old(self).state.ram(), old(self).state.plain(old(self).state.ea(instruction.mode)), old(self).state.ea(instruction.mode), old(self).state.a))),
            instruction.operation == Operation::STX ==> (final(self).state.a == old(self).state.a && final(self).state.x == old(self).state.x && final(self).state.y == old(self).state.y && final(self).state.sp == old(self).state.sp && final(self).state.status == old(self).state.status && (old(self).state.ea_plain(instruction.mode) ==> final(self).state.ram() == upd_if(old(self).state.ram(), old(self).state.plain(old(self).state.ea(instruction.mode)), old(self).state.ea(instruction.mode), old(self).state.x))),
            instruction.operation == Operation::STY ==> (final(self).state.a == old(self).state.a && final(self).state.x == old(self).state.x && final(self).state.y == old(self).state.y && final(self).state.sp == old(self).state.sp && final(self).state.status == old(self).state.status && (old(self).state.ea_plain(instruction.mode) ==> final(self).state.ram() == upd_if(old(self).state.ram(), old(self).state.plain(old(self).state.ea(instruction.mode)), old(self).state.ea(instruction.mode), old(self).state.y))),
            instruction.operation == Operation::INC ==> (final(self).state.a == old(self).state.a && final(self).state.x == old(self).state.x && final(self).state.y == old(self).state.y && final(self).state.sp == old(self).state.sp && (old(self).state.ea_plain(instruction.mode) && old(self).state.plain(old(self).state.ea(instruction.mode)) ==> ({ let ea = old(self).state.ea(instruction.mode); let r = w8(old(self).state.ram()[ea as int] + 1); final(self).state.ram() == old(self).state.ram().update(ea as int, r) && final(self).state.status == st_set_n(st_set_z(old(self).state.status, r), r) }))),
            instruction.operation == Operation::DEC ==> (final(self).state.a == old(self).state.a && final(self).state.x == old(self).state.x && final(self).state.y == old(self).state.y && final(self).state.sp == old(self).state.sp && (old(self).state.ea_plain(instruction.mode) && old(self).state.plain(old(self).state.ea(instruction.mode)) ==> ({ let ea = old(self).state.ea(instruction.mode); let r = w8(old(self).state.ram()[ea as int] - 1); final(self).state.ram() == old(self).state.ram().update(ea as int, r) && final(self).state.status == st_set_n(st_set_z(old(self).state.status, r), r) }))),
            instruction.operation == Operation::ASL ==> (final(self).state.x == old(self).state.x && final(self).state.y == old(self).state.y && final(self).state.sp == old(self).state.sp && (instruction.mode == AddressingMode::ACC ==> final(self).state.a == (old(self).state.a << 1) && final(self).state.ram() == old(self).state.ram() && final(self).state.status == st_set_n(st_set_z(st_set_c(old(self).state.status, ((old(self).state.a & 0x80) >> 7)), final(self).state.a), final(self).state.a)) && (instruction.mode != AddressingMode::ACC ==> final(self).state.a == old(self).state.a) && (instruction.mode != AddressingMode::ACC && old(self).state.ea_plain(instruction.mode) && old(self).state.plain(old(self).state.ea(instruction.mode)) ==> ({ let ea = old(self).state.ea(instruction.mode); let v = old(self).state.ram()[ea as int]; let r = (v << 1) as u8; final(self).state.ram() == old(self).state.ram().update(ea as int, r) && final(self).state.status == st_set_n(st_set_z(st_set_c(old(self).state.status, ((v & 0x80) >> 7)), r), r) }))),
            instruction.operation == Operation::LSR ==> (final(self).state.x == old(self).state.x && final(self).state.y == old(self).state.y && final(self).state.sp == old(self).state.sp && (instruction.mode == AddressingMode::ACC ==> final(self).state.a == (old(self).state.a >> 1) && final(self).state.ram() == old(self).state.ram() && final(self).state.status == st_set_n(st_set_z(st_set_c(old(self).state.status, (old(self).state.a & 0x01)), final(self).state.a), final(self).state.a)) && (instruction.mode != AddressingMode::ACC ==> final(self).state.a == old(self).state.a) && (instruction.mode != AddressingMode::ACC && old(self).state.ea_plain(instruction.mode) && old(self).state.plain(old(self).state.ea(instruction.mode)) ==> ({ let ea = old(self).state.ea(instruction.mode); let v = old(self).state.ram()[ea as int]; let r = (v >> 1) as u8; final(self).state.ram() == old(self).state.ram().update(ea as int, r) && final(self).state.status == st_set_n(st_set_z(st_set_c(old(self).state.status, (v & 0x01)), r), r) }))),
            instruction.operation == Operation::ROL ==> (final(self).state.x == old(self).state.x && final(self).state.y == old(self).state.y && final(self).state.sp == old(self).state.sp && (instruction.mode == AddressingMode::ACC ==> final(self).state.a == ((old(self).state.a << 1) | st_c(old(self).state.status)) && final(self).state.ram() == old(self).state.ram() && final(self).state.status == st_set_n(st_set_z(st_set_c(old(self).state.status, ((old(self).state.a & 0x80) >> 7)), final(self).state.a), final(self).state.a)) && (instruction.mode != AddressingMode::ACC ==> final(self).state.a == old(self).state.a) && (instruction.mode != AddressingMode::ACC && old(self).state.ea_plain(instruction.mode) && old(self).state.plain(old(self).state.ea(instruction.mode)) ==> ({ let ea = old(self).state.ea(instruction.mode); let v = old(self).state.ram()[ea as int]; let r = ((v << 1) | st_c(old(self).state.status)) as u8; final(self).state.ram() == old(self).state.ram().update(ea as int, r) && final(self).state.status == st_set_n(st_set_z(st_set_c(old(self).state.status, ((v & 0x80) >> 7)), r), r) }))),
            instruction.operation == Operation::ROR ==> (final(self).state.x == old(self).state.x && final(self).state.y == old(self).state.y && final(self).state.sp == old(self).state.sp && (instruction.mode == AddressingMode::ACC ==> final(self).state.a == ((old(self).state.a >> 1) | (st_c(old(self).state.status) << 7)) && final(self).state.ram() == old(self).state.ram() && final(self).state.status == st_set_n(st_set_z(st_set_c(old(self).state.status, (old(self).state.a & 0x01)), final(self).state.a), final(self).state.a)) && (instruction.mode != AddressingMode::ACC ==> final(self).state.a == old(self).state.a) && (instruction.mode != AddressingMode::ACC && old(self).state.ea_plain(instruction.mode) && old(self).state.plain(old(self).state.ea(instruction.mode)) ==> ({ let ea = old(self).state.ea(instruction.mode); let v = old(self).state.ram()[ea as int]; let r = ((v >> 1) | (st_c(old(self).state.status) << 7)) as u8; final(self).state.ram() == old(self).state.ram().update(ea as int, r) && final(self).state.status == st_set_n(st_set_z(st_set_c(old(self).state.status, (v & 0x01)), r), r) }))),
            instruction.operation == Operation::DEX ==> (final(self).state.x == w8(old(self).state.x - 1) && final(self).state.a == old(self).state.a && final(self).state.y == old(self).state.y && final(self).state.sp == old(self).state.sp && final(self).state.ram() == old(self).state.ram() && final(self).state.status == st_set_n(st_set_z(old(self).state.status, final(self).state.x), final(self).state.x)),
            instruction.operation == Operation::DEY ==> (final(self).state.y == w8(old(self).state.y - 1) && final(self).state.a == old(self).state.a && final(self).state.x == old(self).state.x && final(self).state.sp == old(self).state.sp && final(self).state.ram() == old(self).state.ram() && final(self).state.status == st_set_n(st_set_z(old(self).state.status, final(self).state.y), final(self).state.y)),
            instruction.operation == Operation::INX ==> (final(self).state.x == w8(old(self).state.x + 1) && final(self).state.a == old(self).state.a && final(self).state.y == old(self).state.y && final(self).state.sp == old(self).state.sp && final(self).state.ram() == old(self).state.ram() && final(self).state.status == st_set_n(st_set_z(old(self).state.status, final(self).state.x), final(self).state.x)),
            instruction.operation == Operation::INY ==> (final(self).state.y == w8(old(self).state.y + 1) && final(self).state.a == old(self).state.a && final(self).state.x == old(self).state.x && final(self).state.sp == old(self).state.sp && final(self).state.ram() == old(self).state.ram() && final(self).state.status == st_set_n(st_set_z(old(self).state.status, final(self).state.y), final(self).state.y)),
            instruction.operation == Operation::TXA ==> (final(self).state.a == old(self).state.x && final(self).state.x == old(self).state.x && final(self).state.y == old(self).state.y && final(self).state.sp == old(self).state.sp && final(self).state.ram() == old(self).state.ram() && final(self).state.status == st_set_n(st_set_z(old(self).state.status, final(self).state.a), final(self).state.a)),
            instruction.operation == Operation::TYA ==> (final(self).state.a == old(self).state.y && final(self).state.x == old(self).state.x && final(self).state.y == old(self).state.y && final(self).state.sp == old(self).state.sp && final(self).state.ram() == old(self).state.ram() && final(self).state.status == st_set_n(st_set_z(old(self).state.status, final(self).state.a), final(self).state.a)),
            instruction.operation == Operation::TAY ==> (final(self).state.y == old(self).state.a && final(self).state.a == old(self).state.a && final(self).state.x == old(self).state.x && final(self).state.sp == old(self).state.sp && final(self).state.ram() == old(self).state.ram() && final(self).state.status == st_set_n(st_set_z(old(self).state.status, final(self).state.y), final(self).state.y)),
            instruction.operation == Operation::TAX ==> (final(self).state.x == old(self).state.a && final(self).state.a == old(self).state.a && final(self).state.y == old(self).state.y && final(self).state.sp == old(self).state.sp && final(self).state.ram() == old(self).state.ram() && final(self).state.status == st_set_n(st_set_z(old(self).state.status, final(self).state.x), final(self).state.x)),
            instruction.operation == Operation::TSX ==> (final(self).state.x == old(self).state.sp && final(self).state.a == old(self).state.a && final(self).state.y == old(self).state.y && final(self).state.sp == old(self).state.sp && final(self).state.ram() == old(self).state.ram() && final(self).state.status == st_set_n(st_set_z(old(self).state.status, final(self).state.x), final(self).state.x)),
            instruction.operation == Operation::TXS ==> (final(self).state.sp == old(self).state.x && final(self).state.a == old(self).state.a && final(self).state.x == old(self).state.x && final(self).state.y == old(self).state.y && final(self).state.status == old(self).state.status && final(self).state.ram() == old(self).state.ram()),
            instruction.operation == Operation::CLC ==> (final(self).state.status == (old(self).state.status & 0xFE) && final(self).state.a == old(self).state.a && final(self).state.x == old(self).state.x && final(self).state.y == old(self).state.y && final(self).state.sp == old(self).state.sp && final(self).state.ram() == old(self).state.ram()),
            instruction.operation == Operation::SEC ==> (final(self).state.status == (old(self).state.status | 0x01) && final(self).state.a == old(self).state.a && final(self).state.x == old(self).state.x && final(self).state.y == old(self).state.y && final(self).state.sp == old(self).state.sp && final(self).state.ram() == old(self).state.ram()),
            instruction.operation == Operation::CLI ==> (final(self).state.status == (old(self).state.status & 0xFB) && final(self).state.a == old(self).state.a && final(self).state.x == old(self).state.x && final(self).state.y == old(self).state.y && final(self).state.sp == old(self).state.sp && final(self).state.ram() == old(self).state.ram()),
            instruction.operation == Operation::SEI ==> (final(self).state.status == (old(self).state.status | 0x04) && final(self).state.a == old(self).state.a && final(self).state.x == old(self).state.x && final(self).state.y == old(self).state.y && final(self).state.sp == old(self).state.sp && final(self).state.ram() == old(self).state.ram()),
            instruction.operation == Operation::CLV ==> (final(self).state.status == (old(self).state.status & 0xBF) && final(self).state.a == old(self).state.a && final(self).state.x == old(self).state.x && final(self).state.y == old(self).state.y && final(self).state.sp == old(self).state.sp && final(self).state.ram() == old(self).state.ram()),
            instruction.operation == Operation::CLD ==> (final(self).state.status == (old(self).state.status & 0xF7) && final(self).state.a == old(self).state.a && final(self).state.x == old(self).state.x && final(self).state.y == old(self).state.y && final(self).state.sp == old(self).state.sp && final(self).state.ram() == old(self).state.ram()),
            instruction.operation == Operation::SED ==> (final(self).state.status == st_set_d(old(self).state.status, 1) && final(self).state.a == old(self).state.a && final(self).state.x == old(self).state.x && final(self).state.y == old(self).state.y && final(self).state.sp == old(self).state.sp && final(self).state.ram() == old(self).state.ram()),
            instruction.operation == Operation::NOP ==> (final(self).state.a == old(self).state.a && final(self).state.x == old(self).state.x && final(self).state.y == old(self).state.y && final(self).state.sp == old(self).state.sp && final(self).state.status == old(self).state.status && final(self).state.ram() == old(self).state.ram()),
            instruction.operation == Operation::PHA ==> (final(self).state.sp == w8(old(self).state.sp - 1) && final(self).state.a == old(self).state.a && final(self).state.x == old(self).state.x && final(self).state.y == old(self).state.y && final(self).state.status == old(self).state.status && final(self).state.ram() == upd_if(old(self).state.ram(), old(self).state.plain(stack_addr(old(self).state.sp)), stack_addr(old(self).state.sp), old(self).state.a)),
            instruction.operation == Operation::PHP ==> (final(self).state.sp == w8(old(self).state.sp - 1) && final(self).state.a == old(self).state.a && final(self).state.x == old(self).state.x && final(self).state.y == old(self).state.y && final(self).state.status == old(self).state.status && final(self).state.ram() == upd_if(old(self).state.ram(), old(self).state.plain(stack_addr(old(self).state.sp)), stack_addr(old(self).state.sp), (old(self).state.status | 0x30))),
            instruction.operation == Operation::PLA ==> (final(self).state.sp == w8(old(self).state.sp + 1) && final(self).state.x == old(self).state.x && final(self).state.y == old(self).state.y && final(self).state.ram() == old(self).state.ram() && final(self).state.status == st_set_n(st_set_z(old(self).state.status, final(self).state.a), final(self).state.a) && (old(self).state.plain(stack_addr(w8(old(self).state.sp + 1))) ==> final(self).state.a == old(self).state.ram()[stack_addr(w8(old(self).state.sp + 1)) as int])),
            instruction.operation == Operation::PLP ==> (final(self).state.sp == w8(old(self).state.sp + 1) && final(self).state.a == old(self).state.a && final(self).state.x == old(self).state.x && final(self).state.y == old(self).state.y && final(self).state.ram() == old(self).state.ram() && (old(self).state.plain(stack_addr(w8(old(self).state.sp + 1))) ==> final(self).state.status == (old(self).state.ram()[stack_addr(w8(old(self).state.sp + 1)) as int] & 0xEF))),
    {
        match instruction.operation {
            Operation::ADC | Operation::SBC | Operation::AND | Operation::ORA | Operation::EOR
            | Operation::LDA | Operation::LDX | Operation::LDY | Operation::CMP | Operation::CPX
            | Operation::CPY | Operation::BIT => self.dispatch_operand(instruction),
            Operation::ASL | Operation::LSR | Operation::ROL | Operation::ROR | Operation::INC
            | Operation::DEC | Operation::STA | Operation::STX | Operation::STY => self
                .dispatch_rmw(instruction),
            _ => self.dispatch_implied(instruction),
        }
    }

    /// The operations that consume an operand byte.
    #[verifier::rlimit(100)]
    #[verifier::spinoff_prover]
    fn dispatch_operand(&mut self, instruction: Instruction)
        requires
            crate::instruction::combo_ok(instruction.operation, instruction.mode),
            instruction.operation == Operation::ADC || instruction.operation == Operation::SBC || instruction.operation == Operation::AND || instruction.operation == Operation::ORA || instruction.operation == Operation::EOR || instruction.operation == Operation::LDA || instruction.operation == Operation::LDX || instruction.operation == Operation::LDY || instruction.operation == Operation::CMP || instruction.operation == Operation::CPX || instruction.operation == Operation::CPY || instruction.operation == Operation::BIT,
        ensures
            final(self).state.plain_same(old(self).state),
            final(self).state.cycles == old(self).state.cycles,
            final(self).state.pc == w16(old(self).state.pc + operand_len(instruction.mode)),
            instruction.operation == Operation::LDA ==> (final(self).state.x == old(self).state.x && final(self).state.y == old(self).state.y && final(self).state.sp == old(self).state.sp && final(self).state.ram() == old(self).state.ram() && final(self).state.status == st_set_n(st_set_z(old(self).state.status, final(self).state.a), final(self).state.a) && (old(self).state.operand_plain(instruction.mode) ==> final(self).state.a == old(self).state.operand(instruction.mode))),
            instruction.operation == Operation::LDX ==> (final(self).state.a == old(self).state.a && final(self).state.y == old(self).state.y && final(self).state.sp == old(self).state.sp && final(self).state.ram() == old(self).state.ram() && final(self).state.status == st_set_n(st_set_z(old(self).state.status, final(self).state.x), final(self).state.x) && (old(self).state.operand_plain(instruction.mode) ==> final(self).state.x == old(self).state.operand(instruction.mode))),
            instruction.operation == Operation::LDY ==> (final(self).state.a == old(self).state.a && final(self).state.x == old(self).state.x && final(self).state.sp == old(self).state.sp && final(self).state.ram() == old(self).state.ram() && final(self).state.status == st_set_n(st_set_z(old(self).state.status, final(self).state.y), final(self).state.y) && (old(self).state.operand_plain(instruction.mode) ==> final(self).state.y == old(self).state.operand(instruction.mode))),
            instruction.operation == Operation::ORA ==> (final(self).state.x == old(self).state.x && final(self).state.y == old(self).state.y && final(self).state.sp == old(self).state.sp && final(self).state.ram() == old(self).state.ram() && final(self).state.status == st_set_n(st_set_z(old(self).state.status, final(self).state.a), final(self).state.a) && (old(self).state.operand_plain(instruction.mode) ==> final(self).state.a == (old(self).state.a | old(self).state.operand(instruction.mode)))),
            instruction.operation == Operation::AND ==> (final(self).state.x == old(self).state.x && final(self).state.y == old(self).state.y && final(self).state.sp == old(self).state.sp && final(self).state.ram() == old(self).state.ram() && final(self).state.status == st_set_n(st_set_z(old(self).state.status, final(self).state.a), final(self).state.a) && (old(self).state.operand_plain(instruction.mode) ==> final(self).state.a == (old(self).state.a & old(self).state.operand(instruction.mode)))),
            instruction.operation == Operation::EOR ==> (final(self).state.x == old(self).state.x && final(self).state.y == old(self).state.y && final(self).state.sp == old(self).state.sp && final(self).state.ram() == old(self).state.ram() && final(self).state.status == st_set_n(st_set_z(old(self).state.status, final(self).state.a), final(self).state.a) && (old(self).state.operand_plain(instruction.mode) ==> final(self).state.a == (old(self).state.a ^ old(self).state.operand(instruction.mode)))),
            instruction.operation == Operation::ADC ==> (final(self).state.x == old(self).state.x && final(self).state.y == old(self).state.y && final(self).state.sp == old(self).state.sp && final(self).state.ram() == old(self).state.ram() && (old(self).state.operand_plain(instruction.mode) ==> ({ let e = adc_effect(old(self).state.a, old(self).state.status, old(self).state.operand(instruction.mode)); final(self).state.a == e.0 && final(self).state.status == e.1 }))),
            instruction.operation == Operation::SBC ==> (final(self).state.x == old(self).state.x && final(self).state.y == old(self).state.y && final(self).state.sp == old(self).state.sp && final(self).state.ram() == old(self).state.ram() && (old(self).state.operand_plain(instruction.mode) ==> ({ let e = sbc_effect(old(self).state.a, old(self).state.status, old(self).state.operand(instruction.mode)); final(self).state.a == e.0 && final(self).state.status == e.1 }))),
            instruction.operation == Operation::CMP ==> (final(self).state.a == old(self).state.a && final(self).state.x == old(self).state.x && final(self).state.y == old(self).state.y && final(self).state.sp == old(self).state.sp && final(self).state.ram() == old(self).state.ram() && (old(self).state.operand_plain(instruction.mode) ==> final(self).state.status == cmp_status(old(self).state.status, old(self).state.a, old(self).state.operand(instruction.mode)))),
            instruction.operation == Operation::CPX ==> (final(self).state.a == old(self).state.a && final(self).state.x == old(self).state.x && final(self).state.y == old(self).state.y && final(self).state.sp == old(self).state.sp && final(self).state.ram() == old(self).state.ram() && (old(self).state.operand_plain(instruction.mode) ==> final(self).state.status == cmp_status(old(self).state.status, old(self).state.x, old(self).state.operand(instruction.mode)))),
            instruction.operation == Operation::CPY ==> (final(self).state.a == old(self).state.a && final(self).state.x == old(self).state.x && final(self).state.y == old(self).state.y && final(self).state.sp == old(self).state.sp && final(self).state.ram() == old(self).state.ram() && (old(self).state.operand_plain(instruction.mode) ==> final(self).state.status == cmp_status(old(self).state.status, old(self).state.y, old(self).state.operand(instruction.mode)))),
            instruction.operation == Operation::BIT ==> (final(self).state.a == old(self).state.a && final(self).state.x == old(self).state.x && final(self).state.y == old(self).state.y && final(self).state.sp == old(self).state.sp && final(self).state.ram() == old(self).state.ram() && (old(self).state.operand_plain(instruction.mode) ==> ({ let v = old(self).state.operand(instruction.mode); final(self).state.status == st_set_v(st_set_n(st_set_z(old(self).state.status, (old(self).state.a & v)), v), (v & 0x40) != 0) }))),
    {
        match instruction.operation {
            Operation::ADC => self.adc(instruction.mode),
            Operation::SBC => self.sbc(instruction.mode),
            Operation::AND => self.and(instruction.mode),
            Operation::ORA => self.ora(instruction.mode),
            Operation::EOR => self.eor(instruction.mode),
            Operation::LDA => self.lda(instruction.mode),
            Operation::LDX => self.ldx(instruction.mode),
            Operation::LDY => self.ldy(instruction.mode),
            Operation::CMP => self.cmp(instruction.mode),
            Operation::CPX => self.cpx(instruction.mode),
            Operation::CPY => self.cpy(instruction.mode),
            Operation::BIT => self.bit(instruction.mode),
            _ => {
                proof {
                    assert(false);
                }
            },
        }
    }

    /// The store and read-modify-write operations.
    #[verifier::rlimit(100)]
    #[verifier::spinoff_prover]
    fn dispatch_rmw(&mut self, instruction: Instruction)
        requires
            crate::instruction::combo_ok(instruction.operation, instruction.mode),
            instruction.operation == Operation::ASL || instruction.operation == Operation::LSR || instruction.operation == Operation::ROL || instruction.operation == Operation::ROR || instruction.operation == Operation::INC || instruction.operation == Operation::DEC || instruction.operation == Operation::STA || instruction.operation == Operation::STX || instruction.operation == Operation::STY,
        ensures
            final(self).state.plain_same(old(self).state),
            final(self).state.cycles == old(self).state.cycles,
            final(self).state.pc == w16(old(self).state.pc + operand_len(instruction.mode)),
            instruction.operation == Operation::STA ==> (final(self).state.a == old(self).state.a && final(self).state.x == old(self).state.x && final(self).state.y == old(self).state.y && final(self).state.sp == old(self).state.sp && final(self).state.status == old(self).state.status && (old(self).state.ea_plain(instruction.mode) ==> final(self).state.ram() == upd_if(old(self).state.ram(), old(self).state.plain(old(self).state.ea(instruction.mode)), old(self).state.ea(instruction.mode), old(self).state.a))),
            instruction.operation == Operation::STX ==> (final(self).state.a == old(self).state.a && final(self).state.x == old(self).state.x && final(self).state.y == old(self).state.y && final(self).state.sp == old(self).state.sp && final(self).state.status == old(self).state.status && (old(self).state.ea_plain(instruction.mode) ==> final(self).state.ram() == upd_if(old(self).state.ram(), old(self).state.plain(old(self).state.ea(instruction.mode)), old(self).state.ea(instruction.mode), old(self).state.x))),
            instruction.operation == Operation::STY ==> (final(self).state.a == old(self).state.a && final(self).state.x == old(self).state.x && final(self).state.y == old(self).state.y && final(self).state.sp == old(self).state.sp && final(self).state.status == old(self).state.status && (old(self).state.ea_plain(instruction.mode) ==> final(self).state.ram() == upd_if(old(self).state.ram(), old(self).state.plain(old(self).state.ea(instruction.mode)), old(self).state.ea(instruction.mode), old(self).state.y))),
            instruction.operation == Operation::INC ==> (final(self).state.a == old(self).state.a && final(self).state.x == old(self).state.x && final(self).state.y == old(self).state.y && final(self).state.sp == old(self).state.sp && (old(self).state.ea_plain(instruction.mode) && old(self).state.plain(old(self).state.ea(instruction.mode)) ==> ({ let ea = old(self).state.ea(instruction.mode); let r = w8(old(self).state.ram()[ea as int] + 1); final(self).state.ram() == old(self).state.ram().update(ea as int, r) && final(self).state.status == st_set_n(st_set_z(old(self).state.status, r), r) }))),
            instruction.operation == Operation::DEC ==> (final(self).state.a == old(self).state.a && final(self).state.x == old(self).state.x && final(self).state.y == old(self).state.y && final(self).state.sp == old(self).state.sp && (old(self).state.ea_plain(instruction.mode) && old(self).state.plain(old(self).state.ea(instruction.mode)) ==> ({ let ea = old(self).state.ea(instruction.mode); let r = w8(old(self).state.ram()[ea as int] - 1); final(self).state.ram() == old(self).state.ram().update(ea as int, r) && final(self).state.status == st_set_n(st_set_z(old(self).state.status, r), r) }))),
            instruction.operation == Operation::ASL ==> (final(self).state.x == old(self).state.x && final(self).state.y == old(self).state.y && final(self).state.sp == old(self).state.sp && (instruction.mode == AddressingMode::ACC ==> final(self).state.a == (old(self).state.a << 1) && final(self).state.ram() == old(self).state.ram() && final(self).state.status == st_set_n(st_set_z(st_set_c(old(self).state.status, ((old(self).state.a & 0x80) >> 7)), final(self).state.a), final(self).state.a)) && (instruction.mode != AddressingMode::ACC ==> final(self).state.a == old(self).state.a) && (instruction.mode != AddressingMode::ACC && old(self).state.ea_plain(instruction.mode) && old(self).state.plain(old(self).state.ea(instruction.mode)) ==> ({ let ea = old(self).state.ea(instruction.mode); let v = old(self).state.ram()[ea as int]; let r = (v << 1) as u8; final(self).state.ram() == old(self).state.ram().update(ea as int, r) && final(self).state.status == st_set_n(st_set_z(st_set_c(old(self).state.status, ((v & 0x80) >> 7)), r), r) }))),
            instruction.operation == Operation::LSR ==> (final(self).state.x == old(self).state.x && final(self).state.y == old(self).state.y && final(self).state.sp == old(self).state.sp && (instruction.mode == AddressingMode::ACC ==> final(self).state.a == (old(self).state.a >> 1) && final(self).state.ram() == old(self).state.ram() && final(self).state.status == st_set_n(st_set_z(st_set_c(old(self).state.status, (old(self).state.a & 0x01)), final(self).state.a), final(self).state.a)) && (instruction.mode != AddressingMode::ACC ==> final(self).state.a == old(self).state.a) && (instruction.mode != AddressingMode::ACC && old(self).state.ea_plain(instruction.mode) && old(self).state.plain(old(self).state.ea(instruction.mode)) ==> ({ let ea = old(self).state.ea(instruction.mode); let v = old(self).state.ram()[ea as int]; let r = (v >> 1) as u8; final(self).state.ram() == old(self).state.ram().update(ea as int, r) && final(self).state.status == st_set_n(st_set_z(st_set_c(old(self).state.status, (v & 0x01)), r), r) }))),
            instruction.operation == Operation::ROL ==> (final(self).state.x == old(self).state.x && final(self).state.y == old(self).state.y && final(self).state.sp == old(self).state.sp && (instruction.mode == AddressingMode::ACC ==> final(self).state.a == ((old(self).state.a << 1) | st_c(old(self).state.status)) && final(self).state.ram() == old(self).state.ram() && final(self).state.status == st_set_n(st_set_z(st_set_c(old(self).state.status, ((old(self).state.a & 0x80) >> 7)), final(self).state.a), final(self).state.a)) && (instruction.mode != AddressingMode::ACC ==> final(self).state.a == old(self).state.a) && (instruction.mode != AddressingMode::ACC && old(self).state.ea_plain(instruction.mode) && old(self).state.plain(old(self).state.ea(instruction.mode)) ==> ({ let ea = old(self).state.ea(instruction.mode); let v = old(self).state.ram()[ea as int]; let r = ((v << 1) | st_c(old(self).state.status)) as u8; final(self).state.ram() == old(self).state.ram().update(ea as int, r) && final(self).state.status == st_set_n(st_set_z(st_set_c(old(self).state.status, ((v & 0x80) >> 7)), r), r) }))),
            instruction.operation == Operation::ROR ==> (final(self).state.x == old(self).state.x && final(self).state.y == old(self).state.y && final(self).state.sp == old(self).state.sp && (instruction.mode == AddressingMode::ACC ==> final(self).state.a == ((old(self).state.a >> 1) | (st_c(old(self).state.status) << 7)) && final(self).state.ram() == old(self).state.ram() && final(self).state.status == st_set_n(st_set_z(st_set_c(old(self).state.status, (old(self).state.a & 0x01)), final(self).state.a), final(self).state.a)) && (instruction.mode != AddressingMode::ACC ==> final(self).state.a == old(self).state.a) && (instruction.mode != AddressingMode::ACC && old(self).state.ea_plain(instruction.mode) && old(self).state.plain(old(self).state.ea(instruction.mode)) ==> ({ let ea = old(self).state.ea(instruction.mode); let v = old(self).state.ram()[ea as int]; let r = ((v >> 1) | (st_c(old(self).state.status) << 7)) as u8; final(self).state.ram() == old(self).state.ram().update(ea as int, r) && final(self).state.status == st_set_n(st_set_z(st_set_c(old(self).state.status, (v & 0x01)), r), r) }))),
    {
        match instruction.operation {
            Operation::ASL => self.asl(instruction.mode),
            Operation::LSR => self.lsr(instruction.mode),
            Operation::ROL => self.rol(instruction.mode),
            Operation::ROR => self.ror(instruction.mode),
            Operation::INC => self.inc(instruction.mode),
            Operation::DEC => self.dec(instruction.mode),
            Operation::STA => self.sta(instruction.mode),
            Operation::STX => self.stx(instruction.mode),
            Operation::STY => self.sty(instruction.mode),
            _ => {
                proof {
                    assert(false);
                }
            },
        }
    }

    /// The implied-operand operations.
    #[verifier::rlimit(100)]
    #[verifier::spinoff_prover]
    fn dispatch_implied(&mut self, instruction: Instruction)
        requires
            crate::instruction::combo_ok(instruction.operation, instruction.mode),
            instruction.operation == Operation::DEY || instruction.operation == Operation::DEX || instruction.operation == Operation::INY || instruction.operation == Operation::INX || instruction.operation == Operation::PHA || instruction.operation == Operation::PHP || instruction.operation == Operation::TXA || instruction.operation == Operation::TYA || instruction.operation == Operation::TXS || instruction.operation == Operation::TSX || instruction.operation == Operation::TAY || instruction.operation == Operation::TAX || instruction.operation == Operation::CLC || instruction.operation == Operation::SEC || instruction.operation == Operation::CLI || instruction.operation == Operation::SEI || instruction.operation == Operation::CLV || instruction.operation == Operation::CLD || instruction.operation == Operation::SED || instruction.operation == Operation::PLA || instruction.operation == Operation::PLP || instruction.operation == Operation::NOP,
        ensures
            final(self).state.plain_same(old(self).state),
            final(self).state.cycles == old(self).state.cycles,
            final(self).state.pc == w16(old(self).state.pc + operand_len(instruction.mode)),
            instruction.operation == Operation::DEX ==> (final(self).state.x == w8(old(self).state.x - 1) && final(self).state.a == old(self).state.a && final(self).state.y == old(self).state.y && final(self).state.sp == old(self).state.sp && final(self).state.ram() == old(self).state.ram() && final(self).state.status == st_set_n(st_set_z(old(self).state.status, final(self).state.x), final(self).state.x)),
            instruction.operation == Operation::DEY ==> (final(self).state.y == w8(old(self).state.y - 1) && final(self).state.a == old(self).state.a && final(self).state.x == old(self).state.x && final(self).state.sp == old(self).state.sp && final(self).state.ram() == old(self).state.ram() && final(self).state.status == st_set_n(st_set_z(old(self).state.status, final(self).state.y), final(self).state.y)),
            instruction.operation == Operation::INX ==> (final(self).state.x == w8(old(self).state.x + 1) && final(self).state.a == old(self).state.a && final(self).state.y == old(self).state.y && final(self).state.sp == old(self).state.sp && final(self).state.ram() == old(self).state.ram() && final(self).state.status == st_set_n(st_set_z(old(self).state.status, final(self).state.x), final(self).state.x)),
            instruction.operation == Operation::INY ==> (final(self).state.y == w8(old(self).state.y + 1) && final(self).state.a == old(self).state.a && final(self).state.x == old(self).state.x && final(self).state.sp == old(self).state.sp && final(self).state.ram() == old(self).state.ram() && final(self).state.status == st_set_n(st_set_z(old(self).state.status, final(self).state.y), final(self).state.y)),
            instruction.operation == Operation::TXA ==> (final(self).state.a == old(self).state.x && final(self).state.x == old(self).state.x && final(self).state.y == old(self).state.y && final(self).state.sp == old(self).state.sp && final(self).state.ram() == old(self).state.ram() && final(self).state.status == st_set_n(st_set_z(old(self).state.status, final(self).state.a), final(self).state.a)),
            instruction.operation == Operation::TYA ==> (final(self).state.a == old(self).state.y && final(self).state.x == old(self).state.x && final(self).state.y == old(self).state.y && final(self).state.sp == old(self).state.sp && final(self).state.ram() == old(self).state.ram() && final(self).state.status == st_set_n(st_set_z(old(self).state.status, final(self).state.a), final(self).state.a)),
            instruction.operation == Operation::TAY ==> (final(self).state.y == old(self).state.a && final(self).state.a == old(self).state.a && final(self).state.x == old(self).state.x && final(self).state.sp == old(self).state.sp && final(self).state.ram() == old(self).state.ram() && final(self).state.status == st_set_n(st_set_z(old(self).state.status, final(self).state.y), final(self).state.y)),
            instruction.operation == Operation::TAX ==> (final(self).state.x == old(self).state.a && final(self).state.a == old(self).state.a && final(self).state.y == old(self).state.y && final(self).state.sp == old(self).state.sp && final(self).state.ram() == old(self).state.ram() && final(self).state.status == st_set_n(st_set_z(old(self).state.status, final(self).state.x), final(self).state.x)),
            instruction.operation == Operation::TSX ==> (final(self).state.x == old(self).state.sp && final(self).state.a == old(self).state.a && final(self).state.y == old(self).state.y && final(self).state.sp == old(self).state.sp && final(self).state.ram() == old(self).state.ram() && final(self).state.status == st_set_n(st_set_z(old(self).state.status, final(self).state.x), final(self).state.x)),
            instruction.operation == Operation::TXS ==> (final(self).state.sp == old(self).state.x && final(self).state.a == old(self).state.a && final(self).state.x == old(self).state.x && final(self).state.y == old(self).state.y && final(self).state.status == old(self).state.status && final(self).state.ram() == old(self).state.ram()),
            instruction.operation == Operation::CLC ==> (final(self).state.status == (old(self).state.status & 0xFE) && final(self).state.a == old(self).state.a && final(self).state.x == old(self).state.x && final(self).state.y == old(self).state.y && final(self).state.sp == old(self).state.sp && final(self).state.ram() == old(self).state.ram()),
            instruction.operation == Operation::SEC ==> (final(self).state.status == (old(self).state.status | 0x01) && final(self).state.a == old(self).state.a && final(self).state.x == old(self).state.x && final(self).state.y == old(self).state.y && final(self).state.sp == old(self).state.sp && final(self).state.ram() == old(self).state.ram()),
            instruction.operation == Operation::CLI ==> (final(self).state.status == (old(self).state.status & 0xFB) && final(self).state.a == old(self).state.a && final(self).state.x == old(self).state.x && final(self).state.y == old(self).state.y && final(self).state.sp == old(self).state.sp && final(self).state.ram() == old(self).state.ram()),
            instruction.operation == Operation::SEI ==> (final(self).state.status == (old(self).state.status | 0x04) && final(self).state.a == old(self).state.a && final(self).state.x == old(self).state.x && final(self).state.y == old(self).state.y && final(self).state.sp == old(self).state.sp && final(self).state.ram() == old(self).state.ram()),
            instruction.operation == Operation::CLV ==> (final(self).state.status == (old(self).state.status & 0xBF) && final(self).state.a == old(self).state.a && final(self).state.x == old(self).state.x && final(self).state.y == old(self).state.y && final(self).state.sp == old(self).state.sp && final(self).state.ram() == old(self).state.ram()),
            instruction.operation == Operation::CLD ==> (final(self).state.status == (old(self).state.status & 0xF7) && final(self).state.a == old(self).state.a && final(self).state.x == old(self).state.x && final(self).state.y == old(self).state.y && final(self).state.sp == old(self).state.sp && final(self).state.ram() == old(self).state.ram()),
            instruction.operation == Operation::SED ==> (final(self).state.status == st_set_d(old(self).state.status, 1) && final(self).state.a == old(self).state.a && final(self).state.x == old(self).state.x && final(self).state.y == old(self).state.y && final(self).state.sp == old(self).state.sp && final(self).state.ram() == old(self).state.ram()),
            instruction.operation == Operation::NOP ==> (final(self).state.a == old(self).state.a && final(self).state.x == old(self).state.x && final(self).state.y == old(self).state.y && final(self).state.sp == old(self).state.sp && final(self).state.status == old(self).state.status && final(self).state.ram() == old(self).state.ram()),
            instruction.operation == Operation::PHA ==> (final(self).state.sp == w8(old(self).state.sp - 1) && final(self).state.a == old(self).state.a && final(self).state.x == old(self).state.x && final(self).state.y == old(self).state.y && final(self).state.status == old(self).state.status && final(self).state.ram() == upd_if(old(self).state.ram(), old(self).state.plain(stack_addr(old(self).state.sp)), stack_addr(old(self).state.sp), old(self).state.a)),
            instruction.operation == Operation::PHP ==> (final(self).state.sp == w8(old(self).state.sp - 1) && final(self).state.a == old(self).state.a && final(self).state.x == old(self).state.x && final(self).state.y == old(self).state.y && final(self).state.status == old(self).state.status && final(self).state.ram() == upd_if(old(self).state.ram(), old(self).state.plain(stack_addr(old(self).state.sp)), stack_addr(old(self).state.sp), (old(self).state.status | 0x30))),
            instruction.operation == Operation::PLA ==> (final(self).state.sp == w8(old(self).state.sp + 1) && final(self).state.x == old(self).state.x && final(self).state.y == old(self).state.y && final(self).state.ram() == old(self).state.ram() && final(self).state.status == st_set_n(st_set_z(old(self).state.status, final(self).state.a), final(self).state.a) && (old(self).state.plain(stack_addr(w8(old(self).state.sp + 1))) ==> final(self).state.a == old(self).state.ram()[stack_addr(w8(old(self).state.sp + 1)) as int])),
            instruction.operation == Operation::PLP ==> (final(self).state.sp == w8(old(self).state.sp + 1) && final(self).state.a == old(self).state.a && final(self).state.x == old(self).state.x && final(self).state.y == old(self).state.y && final(self).state.ram() == old(self).state.ram() && (old(self).state.plain(stack_addr(w8(old(self).state.sp + 1))) ==> final(self).state.status == (old(self).state.ram()[stack_addr(w8(old(self).state.sp + 1)) as int] & 0xEF))),
    {
        match instruction.operation {
            Operation::DEY => self.dey(),
            Operation::DEX => self.dex(),
            Operation::INY => self.iny(),
            Operation::INX => self.inx(),
            Operation::PHA => self.pha(),
            Operation::PHP => self.php(),
            Operation::TXA => self.txa(),
            Operation::TYA => self.tya(),
            Operation::TXS => self.txs(),
            Operation::TSX => self.tsx(),
            Operation::TAY => self.tay(),
            Operation::TAX => self.tax(),
            Operation::CLC => self.clc(),
            Operation::SEC => self.sec(),
            Operation::CLI => self.cli(),
            Operation::SEI => self.sei(),
            Operation::CLV => self.clv(),
            Operation::CLD => self.cld(),
            Operation::SED => self.sed(),
            Operation::PLA => self.pla(),
            Operation::PLP => self.plp(),
            Operation::NOP => self.nop(),
            _ => {
                proof {
                    assert(false);
                }
            },
        }
    }

    /// The control transfers: branches, jumps, subroutine and interrupt
    /// entry and return.
    #[verifier::rlimit(100)]
    #[verifier::spinoff_prover]
    fn dispatch_control(&mut self, instruction: Instruction)
        requires
            crate::instruction::combo_ok(instruction.operation, instruction.mode),
            !pc_linear(instruction.operation),
        ensures
            final(self).state.plain_same(old(self).state),
            final(self).state.cycles == old(self).state.cycles,
            is_branch(instruction.operation) && !branch_taken(
                instruction.operation,
                old(self).state.status,
            ) ==> final(self).state.pc == w16(old(self).state.pc + 1),
            is_branch(instruction.operation) && branch_taken(
                instruction.operation,
                old(self).state.status,
            ) && old(self).state.plain(old(self).state.pc) ==> final(self).state.pc == w16(
                old(self).state.pc + 1 + sext8(old(self).state.ram()[old(self).state.pc as int]),
            ),
            (instruction.operation == Operation::JMP || instruction.operation == Operation::JSR)
                && instruction.mode == AddressingMode::ABS && old(self).state.plain(
                old(self).state.pc,
            ) && old(self).state.plain(w16(old(self).state.pc + 1)) ==> final(self).state.pc
                == word_at(old(self).state.ram(), old(self).state.pc),
            is_branch(instruction.operation) ==> (final(self).state.a == old(self).state.a && final(self).state.x == old(self).state.x && final(self).state.y == old(self).state.y && final(self).state.sp == old(self).state.sp && final(self).state.status == old(self).state.status && final(self).state.ram() == old(self).state.ram()),
            instruction.operation == Operation::JMP ==> (final(self).state.a == old(self).state.a && final(self).state.x == old(self).state.x && final(self).state.y == old(self).state.y && final(self).state.sp == old(self).state.sp && final(self).state.status == old(self).state.status && final(self).state.ram() == old(self).state.ram() && (old(self).state.ea_plain(instruction.mode) ==> final(self).state.pc == old(self).state.ea(instruction.mode))),
            instruction.operation == Operation::JSR ==> (final(self).state.sp == w8(old(self).state.sp - 2) && final(self).state.a == old(self).state.a && final(self).state.x == old(self).state.x && final(self).state.y == old(self).state.y && final(self).state.status == old(self).state.status && final(self).state.ram() == upd_if(upd_if(old(self).state.ram(), old(self).state.plain(stack_addr(old(self).state.sp)), stack_addr(old(self).state.sp), hi8(w16(old(self).state.pc + operand_len(instruction.mode) - 1))), old(self).state.plain(stack_addr(w8(old(self).state.sp - 1))), stack_addr(w8(old(self).state.sp - 1)), lo8(w16(old(self).state.pc + operand_len(instruction.mode) - 1))) && (old(self).state.ea_plain(instruction.mode) ==> final(self).state.pc == old(self).state.ea(instruction.mode))),
            instruction.operation == Operation::RTS ==> (final(self).state.sp == w8(old(self).state.sp + 2) && final(self).state.a == old(self).state.a && final(self).state.x == old(self).state.x && final(self).state.y == old(self).state.y && final(self).state.status == old(self).state.status && final(self).state.ram() == old(self).state.ram() && (old(self).state.plain(stack_addr(w8(old(self).state.sp + 1))) && old(self).state.plain(stack_addr(w8(old(self).state.sp + 2))) ==> final(self).state.pc == w16(word_from(old(self).state.ram()[stack_addr(w8(old(self).state.sp + 1)) as int], old(self).state.ram()[stack_addr(w8(old(self).state.sp + 2)) as int]) + 1))),
            instruction.operation == Operation::RTI ==> (final(self).state.sp == w8(old(self).state.sp + 3) && final(self).state.a == old(self).state.a && final(self).state.x == old(self).state.x && final(self).state.y == old(self).state.y && final(self).state.ram() == old(self).state.ram() && (old(self).state.plain(stack_addr(w8(old(self).state.sp + 1))) ==> final(self).state.status == (old(self).state.ram()[stack_addr(w8(old(self).state.sp + 1)) as int] & 0xEF)) && (old(self).state.plain(stack_addr(w8(old(self).state.sp + 2))) && old(self).state.plain(stack_addr(w8(old(self).state.sp + 3))) ==> final(self).state.pc == word_from(old(self).state.ram()[stack_addr(w8(old(self).state.sp + 2)) as int], old(self).state.ram()[stack_addr(w8(old(self).state.sp + 3)) as int]))),
            instruction.operation == Operation::BRK ==> (final(self).state.sp == w8(old(self).state.sp - 3) && final(self).state.a == old(self).state.a && final(self).state.x == old(self).state.x && final(self).state.y == old(self).state.y && final(self).state.status == (old(self).state.status | 0x04) && final(self).state.ram() == upd_if(upd_if(upd_if(old(self).state.ram(), old(self).state.plain(stack_addr(old(self).state.sp)), stack_addr(old(self).state.sp), hi8(w16(old(self).state.pc + 1))), old(self).state.plain(stack_addr(w8(old(self).state.sp - 1))), stack_addr(w8(old(self).state.sp - 1)), lo8(w16(old(self).state.pc + 1))), old(self).state.plain(stack_addr(w8(old(self).state.sp - 2))), stack_addr(w8(old(self).state.sp - 2)), (old(self).state.status | 0x30)) && (old(self).state.plain(0xFFFE) && old(self).state.plain(0xFFFF) ==> final(self).state.pc == word_at(final(self).state.ram(), 0xFFFE))),
    {
        match instruction.operation {
            Operation::BRK => self.brk(),
            Operation::JMP => self.jmp(instruction.mode),
            Operation::BPL => self.bpl(instruction.mode),
            Operation::BCS => self.bcs(instruction.mode),
            Operation::BCC => self.bcc(instruction.mode),
            Operation::JSR => self.jsr(instruction.mode),
            Operation::RTS => self.rts(),
            Operation::BNE => self.bne(instruction.mode),
            Operation::BMI => self.bmi(instruction.mode),
            Operation::BVS => self.bvs(instruction.mode),
            Operation::BVC => self.bvc(instruction.mode),
            Operation::RTI => self.rti(),
            Operation::BEQ => self.beq(instruction.mode),
            _ => {
                proof {
                    assert(false);
                }
            },
        }
    }

    /// Execute the next instruction.
    ///
    /// Captures PC before the fetch, decodes one instruction, peeks at the
    /// raw operand bytes for the trace, executes the operation, adds the
    /// base cycle cost, and returns the trace record.  An opcode outside
    /// the instruction table is a fatal decode error: the step aborts with
    /// the opcode and the PC it was fetched from, having consumed only the
    /// opcode byte.
    ///
    /// The contract pins the whole effect of the executed operation: the
    /// clause bundles near the end each relate the state at the operand
    /// position (`pre`, the pre-step state with PC past the opcode) to the
    /// final state, operation by operation.  Values that come off the bus
    /// are pinned wherever the cells consulted are plain RAM; on a fully
    /// RAM-backed bus the step is deterministic.
    #[verifier::rlimit(100)]
    #[verifier::spinoff_prover]
    pub fn step(&mut self) -> (r: Result<Trace, DecodeError>)
        requires
            old(self).state.cycles + 16 <= u64::MAX,
        ensures
            final(self).state.plain_same(old(self).state),
            r matches Err(e) ==> ({
                &&& decode(e.opcode) is None
                &&& e.pc == old(self).state.pc
                &&& final(self).state.pc == w16(old(self).state.pc + 1)
                &&& final(self).state.a == old(self).state.a
                &&& final(self).state.x == old(self).state.x
                &&& final(self).state.y == old(self).state.y
                &&& final(self).state.sp == old(self).state.sp
                &&& final(self).state.status == old(self).state.status
                &&& final(self).state.cycles == old(self).state.cycles
                &&& final(self).state.ram() == old(self).state.ram()
            }),
            old(self).state.plain(old(self).state.pc) ==> ((r is Err) <==> decode(
                old(self).state.ram()[old(self).state.pc as int],
            ) is None),
            r matches Err(e) ==> (old(self).state.plain(old(self).state.pc) ==> e.opcode == old(self).state.ram()[old(self).state.pc as int]),
            r matches Ok(t) ==> ({
                &&& t.pc == old(self).state.pc
                &&& decode(t.instruction.opcode) == Some(t.instruction)
                &&& 2 <= t.instruction.cycles <= 7
                &&& t.a == final(self).state.a
                &&& t.x == final(self).state.x
                &&& t.y == final(self).state.y
                &&& t.sp == final(self).state.sp
                &&& t.sr == final(self).state.status
                &&& final(self).state.cycles == old(self).state.cycles + t.instruction.cycles
                &&& (pc_linear(t.instruction.operation) ==> final(self).state.pc == w16(
                    old(self).state.pc + instruction_length(t.instruction.mode),
                ))
                &&& (is_branch(t.instruction.operation) && !branch_taken(
                    t.instruction.operation,
                    old(self).state.status,
                ) ==> final(self).state.pc == w16(
                    old(self).state.pc + instruction_length(t.instruction.mode),
                ))
            }),
            r matches Ok(t) ==> (old(self).state.plain(old(self).state.pc)
                ==> t.instruction.opcode == old(self).state.ram()[old(self).state.pc as int]),
            r matches Ok(t) ==> (old(self).state.plain(w16(old(self).state.pc + 1)) && old(self).state.plain(w16(old(self).state.pc + 2)) ==> t.operand == operand_peek_at(
                old(self).state.ram(),
                w16(old(self).state.pc + 1),
                t.instruction.mode,
            )),
            r matches Ok(t) ==> (is_branch(t.instruction.operation) && branch_taken(
                t.instruction.operation,
                old(self).state.status,
            ) && old(self).state.plain(w16(old(self).state.pc + 1)) ==> final(self).state.pc
                == w16(
                old(self).state.pc + 2 + sext8(
                    old(self).state.ram()[w16(old(self).state.pc + 1) as int],
                ),
            )),
            r matches Ok(t) ==> ((t.instruction.operation == Operation::JMP
                || t.instruction.operation == Operation::JSR) && t.instruction.mode
                == AddressingMode::ABS && old(self).state.plain(w16(old(self).state.pc + 1)) && old(
                self,
            ).state.plain(w16(old(self).state.pc + 2)) ==> final(self).state.pc == word_at(
                old(self).state.ram(),
                w16(old(self).state.pc + 1),
            )),
            r matches Ok(t) ==> ({
                let pre = (CPUState { pc: w16(old(self).state.pc + 1), ..old(self).state });
                &&& (t.instruction.operation == Operation::LDA ==> (final(self).state.x == pre.x && final(self).state.y == pre.y && final(self).state.sp == pre.sp && final(self).state.ram() == pre.ram() && final(self).state.status == st_set_n(st_set_z(pre.status, final(self).state.a), final(self).state.a) && (pre.operand_plain(t.instruction.mode) ==> final(self).state.a == pre.operand(t.instruction.mode))))
                &&& (t.instruction.operation == Operation::LDX ==> (final(self).state.a == pre.a && final(self).state.y == pre.y && final(self).state.sp == pre.sp && final(self).state.ram() == pre.ram() && final(self).state.status == st_set_n(st_set_z(pre.status, final(self).state.x), final(self).state.x) && (pre.operand_plain(t.instruction.mode) ==> final(self).state.x == pre.operand(t.instruction.mode))))
                &&& (t.instruction.operation == Operation::LDY ==> (final(self).state.a == pre.a && final(self).state.x == pre.x && final(self).state.sp == pre.sp && final(self).state.ram() == pre.ram() && final(self).state.status == st_set_n(st_set_z(pre.status, final(self).state.y), final(self).state.y) && (pre.operand_plain(t.instruction.mode) ==> final(self).state.y == pre.operand(t.instruction.mode))))
                &&& (t.instruction.operation == Operation::ORA ==> (final(self).state.x == pre.x && final(self).state.y == pre.y && final(self).state.sp == pre.sp && final(self).state.ram() == pre.ram() && final(self).state.status == st_set_n(st_set_z(pre.status, final(self).state.a), final(self).state.a) && (pre.operand_plain(t.instruction.mode) ==> final(self).state.a == (pre.a | pre.operand(t.instruction.mode)))))
                &&& (t.instruction.operation == Operation::AND ==> (final(self).state.x == pre.x && final(self).state.y == pre.y && final(self).state.sp == pre.sp && final(self).state.ram() == pre.ram() && final(self).state.status == st_set_n(st_set_z(pre.status, final(self).state.a), final(self).state.a) && (pre.operand_plain(t.instruction.mode) ==> final(self).state.a == (pre.a & pre.operand(t.instruction.mode)))))
                &&& (t.instruction.operation == Operation::EOR ==> (final(self).state.x == pre.x && final(self).state.y == pre.y && final(self).state.sp == pre.sp && final(self).state.ram() == pre.ram() && final(self).state.status == st_set_n(st_set_z(pre.status, final(self).state.a), final(self).state.a) && (pre.operand_plain(t.instruction.mode) ==> final(self).state.a == (pre.a ^ pre.operand(t.instruction.mode)))))
                &&& (t.instruction.operation == Operation::ADC ==> (final(self).state.x == pre.x && final(self).state.y == pre.y && final(self).state.sp == pre.sp && final(self).state.ram() == pre.ram() && (pre.operand_plain(t.instruction.mode) ==> ({ let e = adc_effect(pre.a, pre.status, pre.operand(t.instruction.mode)); final(self).state.a == e.0 && final(self).state.status == e.1 }))))
                &&& (t.instruction.operation == Operation::SBC ==> (final(self).state.x == pre.x && final(self).state.y == pre.y && final(self).state.sp == pre.sp && final(self).state.ram() == pre.ram() && (pre.operand_plain(t.instruction.mode) ==> ({ let e = sbc_effect(pre.a, pre.status, pre.operand(t.instruction.mode)); final(self).state.a == e.0 && final(self).state.status == e.1 }))))
                &&& (t.instruction.operation == Operation::CMP ==> (final(self).state.a == pre.a && final(self).state.x == pre.x && final(self).state.y == pre.y && final(self).state.sp == pre.sp && final(self).state.ram() == pre.ram() && (pre.operand_plain(t.instruction.mode) ==> final(self).state.status == cmp_status(pre.status, pre.a, pre.operand(t.instruction.mode)))))
                &&& (t.instruction.operation == Operation::CPX ==> (final(self).state.a == pre.a && final(self).state.x == pre.x && final(self).state.y == pre.y && final(self).state.sp == pre.sp && final(self).state.ram() == pre.ram() && (pre.operand_plain(t.instruction.mode) ==> final(self).state.status == cmp_status(pre.status, pre.x, pre.operand(t.instruction.mode)))))
                &&& (t.instruction.operation == Operation::CPY ==> (final(self).state.a == pre.a && final(self).state.x == pre.x && final(self).state.y == pre.y && final(self).state.sp == pre.sp && final(self).state.ram() == pre.ram() && (pre.operand_plain(t.instruction.mode) ==> final(self).state.status == cmp_status(pre.status, pre.y, pre.operand(t.instruction.mode)))))
                &&& (t.instruction.operation == Operation::BIT ==> (final(self).state.a == pre.a && final(self).state.x == pre.x && final(self).state.y == pre.y && final(self).state.sp == pre.sp && final(self).state.ram() == pre.ram() && (pre.operand_plain(t.instruction.mode) ==> ({ let v = pre.operand(t.instruction.mode); final(self).state.status == st_set_v(st_set_n(st_set_z(pre.status, (pre.a & v)), v), (v & 0x40) != 0) }))))
            }),
            r matches Ok(t) ==> ({
                let pre = (CPUState { pc: w16(old(self).state.pc + 1), ..old(self).state });
                &&& (t.instruction.operation == Operation::STA ==> (final(self).state.a == pre.a && final(self).state.x == pre.x && final(self).state.y == pre.y && final(self).state.sp == pre.sp && final(self).state.status == pre.status && (pre.ea_plain(t.instruction.mode) ==> final(self).state.ram() == upd_if(pre.ram(), pre.plain(pre.ea(t.instruction.mode)), pre.ea(t.instruction.mode), pre.a))))
                &&& (t.instruction.operation == Operation::STX ==> (final(self).state.a == pre.a && final(self).state.x == pre.x && final(self).state.y == pre.y && final(self).state.sp == pre.sp && final(self).state.status == pre.status && (pre.ea_plain(t.instruction.mode) ==> final(self).state.ram() == upd_if(pre.ram(), pre.plain(pre.ea(t.instruction.mode)), pre.ea(t.instruction.mode), pre.x))))
                &&& (t.instruction.operation == Operation::STY ==> (final(self).state.a == pre.a && final(self).state.x == pre.x && final(self).state.y == pre.y && final(self).state.sp == pre.sp && final(self).state.status == pre.status && (pre.ea_plain(t.instruction.mode) ==> final(self).state.ram() == upd_if(pre.ram(), pre.plain(pre.ea(t.instruction.mode)), pre.ea(t.instruction.mode), pre.y))))
                &&& (t.instruction.operation == Operation::INC ==> (final(self).state.a == pre.a && final(self).state.x == pre.x && final(self).state.y == pre.y && final(self).state.sp == pre.sp && (pre.ea_plain(t.instruction.mode) && pre.plain(pre.ea(t.instruction.mode)) ==> ({ let ea = pre.ea(t.instruction.mode); let r = w8(pre.ram()[ea as int] + 1); final(self).state.ram() == pre.ram().update(ea as int, r) && final(self).state.status == st_set_n(st_set_z(pre.status, r), r) }))))
                &&& (t.instruction.operation == Operation::DEC ==> (final(self).state.a == pre.a && final(self).state.x == pre.x && final(self).state.y == pre.y && final(self).state.sp == pre.sp && (pre.ea_plain(t.instruction.mode) && pre.plain(pre.ea(t.instruction.mode)) ==> ({ let ea = pre.ea(t.instruction.mode); let r = w8(pre.ram()[ea as int] - 1); final(self).state.ram() == pre.ram().update(ea as int, r) && final(self).state.status == st_set_n(st_set_z(pre.status, r), r) }))))
                &&& (t.instruction.operation == Operation::ASL ==> (final(self).state.x == pre.x && final(self).state.y == pre.y && final(self).state.sp == pre.sp && (t.instruction.mode == AddressingMode::ACC ==> final(self).state.a == (pre.a << 1) && final(self).state.ram() == pre.ram() && final(self).state.status == st_set_n(st_set_z(st_set_c(pre.status, ((pre.a & 0x80) >> 7)), final(self).state.a), final(self).state.a)) && (t.instruction.mode != AddressingMode::ACC ==> final(self).state.a == pre.a) && (t.instruction.mode != AddressingMode::ACC && pre.ea_plain(t.instruction.mode) && pre.plain(pre.ea(t.instruction.mode)) ==> ({ let ea = pre.ea(t.instruction.mode); let v = pre.ram()[ea as int]; let r = (v << 1) as u8; final(self).state.ram() == pre.ram().update(ea as int, r) && final(self).state.status == st_set_n(st_set_z(st_set_c(pre.status, ((v & 0x80) >> 7)), r), r) }))))
                &&& (t.instruction.operation == Operation::LSR ==> (final(self).state.x == pre.x && final(self).state.y == pre.y && final(self).state.sp == pre.sp && (t.instruction.mode == AddressingMode::ACC ==> final(self).state.a == (pre.a >> 1) && final(self).state.ram() == pre.ram() && final(self).state.status == st_set_n(st_set_z(st_set_c(pre.status, (pre.a & 0x01)), final(self).state.a), final(self).state.a)) && (t.instruction.mode != AddressingMode::ACC ==> final(self).state.a == pre.a) && (t.instruction.mode != AddressingMode::ACC && pre.ea_plain(t.instruction.mode) && pre.plain(pre.ea(t.instruction.mode)) ==> ({ let ea = pre.ea(t.instruction.mode); let v = pre.ram()[ea as int]; let r = (v >> 1) as u8; final(self).state.ram() == pre.ram().update(ea as int, r) && final(self).state.status == st_set_n(st_set_z(st_set_c(pre.status, (v & 0x01)), r), r) }))))
                &&& (t.instruction.operation == Operation::ROL ==> (final(self).state.x == pre.x && final(self).state.y == pre.y && final(self).state.sp == pre.sp && (t.instruction.mode == AddressingMode::ACC ==> final(self).state.a == ((pre.a << 1) | st_c(pre.status)) && final(self).state.ram() == pre.ram() && final(self).state.status == st_set_n(st_set_z(st_set_c(pre.status, ((pre.a & 0x80) >> 7)), final(self).state.a), final(self).state.a)) && (t.instruction.mode != AddressingMode::ACC ==> final(self).state.a == pre.a) && (t.instruction.mode != AddressingMode::ACC && pre.ea_plain(t.instruction.mode) && pre.plain(pre.ea(t.instruction.mode)) ==> ({ let ea = pre.ea(t.instruction.mode); let v = pre.ram()[ea as int]; let r = ((v << 1) | st_c(pre.status)) as u8; final(self).state.ram() == pre.ram().update(ea as int, r) && final(self).state.status == st_set_n(st_set_z(st_set_c(pre.status, ((v & 0x80) >> 7)), r), r) }))))
                &&& (t.instruction.operation == Operation::ROR ==> (final(self).state.x == pre.x && final(self).state.y == pre.y && final(self).state.sp == pre.sp && (t.instruction.mode == AddressingMode::ACC ==> final(self).state.a == ((pre.a >> 1) | (st_c(pre.status) << 7)) && final(self).state.ram() == pre.ram() && final(self).state.status == st_set_n(st_set_z(st_set_c(pre.status, (pre.a & 0x01)), final(self).state.a), final(self).state.a)) && (t.instruction.mode != AddressingMode::ACC ==> final(self).state.a == pre.a) && (t.instruction.mode != AddressingMode::ACC && pre.ea_plain(t.instruction.mode) && pre.plain(pre.ea(t.instruction.mode)) ==> ({ let ea = pre.ea(t.instruction.mode); let v = pre.ram()[ea as int]; let r = ((v >> 1) | (st_c(pre.status) << 7)) as u8; final(self).state.ram() == pre.ram().update(ea as int, r) && final(self).state.status == st_set_n(st_set_z(st_set_c(pre.status, (v & 0x01)), r), r) }))))
            }),
            r matches Ok(t) ==> ({
                let pre = (CPUState { pc: w16(old(self).state.pc + 1), ..old(self).state });
                &&& (t.instruction.operation == Operation::DEX ==> (final(self).state.x == w8(pre.x - 1) && final(self).state.a == pre.a && final(self).state.y == pre.y && final(self).state.sp == pre.sp && final(self).state.ram() == pre.ram() && final(self).state.status == st_set_n(st_set_z(pre.status, final(self).state.x), final(self).state.x)))
                &&& (t.instruction.operation == Operation::DEY ==> (final(self).state.y == w8(pre.y - 1) && final(self).state.a == pre.a && final(self).state.x == pre.x && final(self).state.sp == pre.sp && final(self).state.ram() == pre.ram() && final(self).state.status == st_set_n(st_set_z(pre.status, final(self).state.y), final(self).state.y)))
                &&& (t.instruction.operation == Operation::INX ==> (final(self).state.x == w8(pre.x + 1) && final(self).state.a == pre.a && final(self).state.y == pre.y && final(self).state.sp == pre.sp && final(self).state.ram() == pre.ram() && final(self).state.status == st_set_n(st_set_z(pre.status, final(self).state.x), final(self).state.x)))
                &&& (t.instruction.operation == Operation::INY ==> (final(self).state.y == w8(pre.y + 1) && final(self).state.a == pre.a && final(self).state.x == pre.x && final(self).state.sp == pre.sp && final(self).state.ram() == pre.ram() && final(self).state.status == st_set_n(st_set_z(pre.status, final(self).state.y), final(self).state.y)))
                &&& (t.instruction.operation == Operation::TXA ==> (final(self).state.a == pre.x && final(self).state.x == pre.x && final(self).state.y == pre.y && final(self).state.sp == pre.sp && final(self).state.ram() == pre.ram() && final(self).state.status == st_set_n(st_set_z(pre.status, final(self).state.a), final(self).state.a)))
                &&& (t.instruction.operation == Operation::TYA ==> (final(self).state.a == pre.y && final(self).state.x == pre.x && final(self).state.y == pre.y && final(self).state.sp == pre.sp && final(self).state.ram() == pre.ram() && final(self).state.status == st_set_n(st_set_z(pre.status, final(self).state.a), final(self).state.a)))
                &&& (t.instruction.operation == Operation::TAY ==> (final(self).state.y == pre.a && final(self).state.a == pre.a && final(self).state.x == pre.x && final(self).state.sp == pre.sp && final(self).state.ram() == pre.ram() && final(self).state.status == st_set_n(st_set_z(pre.status, final(self).state.y), final(self).state.y)))
                &&& (t.instruction.operation == Operation::TAX ==> (final(self).state.x == pre.a && final(self).state.a == pre.a && final(self).state.y == pre.y && final(self).state.sp == pre.sp && final(self).state.ram() == pre.ram() && final(self).state.status == st_set_n(st_set_z(pre.status, final(self).state.x), final(self).state.x)))
                &&& (t.instruction.operation == Operation::TSX ==> (final(self).state.x == pre.sp && final(self).state.a == pre.a && final(self).state.y == pre.y && final(self).state.sp == pre.sp && final(self).state.ram() == pre.ram() && final(self).state.status == st_set_n(st_set_z(pre.status, final(self).state.x), final(self).state.x)))
                &&& (t.instruction.operation == Operation::TXS ==> (final(self).state.sp == pre.x && final(self).state.a == pre.a && final(self).state.x == pre.x && final(self).state.y == pre.y && final(self).state.status == pre.status && final(self).state.ram() == pre.ram()))
                &&& (t.instruction.operation == Operation::CLC ==> (final(self).state.status == (pre.status & 0xFE) && final(self).state.a == pre.a && final(self).state.x == pre.x && final(self).state.y == pre.y && final(self).state.sp == pre.sp && final(self).state.ram() == pre.ram()))
                &&& (t.instruction.operation == Operation::SEC ==> (final(self).state.status == (pre.status | 0x01) && final(self).state.a == pre.a && final(self).state.x == pre.x && final(self).state.y == pre.y && final(self).state.sp == pre.sp && final(self).state.ram() == pre.ram()))
                &&& (t.instruction.operation == Operation::CLI ==> (final(self).state.status == (pre.status & 0xFB) && final(self).state.a == pre.a && final(self).state.x == pre.x && final(self).state.y == pre.y && final(self).state.sp == pre.sp && final(self).state.ram() == pre.ram()))
                &&& (t.instruction.operation == Operation::SEI ==> (final(self).state.status == (pre.status | 0x04) && final(self).state.a == pre.a && final(self).state.x == pre.x && final(self).state.y == pre.y && final(self).state.sp == pre.sp && final(self).state.ram() == pre.ram()))
                &&& (t.instruction.operation == Operation::CLV ==> (final(self).state.status == (pre.status & 0xBF) && final(self).state.a == pre.a && final(self).state.x == pre.x && final(self).state.y == pre.y && final(self).state.sp == pre.sp && final(self).state.ram() == pre.ram()))
                &&& (t.instruction.operation == Operation::CLD ==> (final(self).state.status == (pre.status & 0xF7) && final(self).state.a == pre.a && final(self).state.x == pre.x && final(self).state.y == pre.y && final(self).state.sp == pre.sp && final(self).state.ram() == pre.ram()))
                &&& (t.instruction.operation == Operation::SED ==> (final(self).state.status == st_set_d(pre.status, 1) && final(self).state.a == pre.a && final(self).state.x == pre.x && final(self).state.y == pre.y && final(self).state.sp == pre.sp && final(self).state.ram() == pre.ram()))
                &&& (t.instruction.operation == Operation::NOP ==> (final(self).state.a == pre.a && final(self).state.x == pre.x && final(self).state.y == pre.y && final(self).state.sp == pre.sp && final(self).state.status == pre.status && final(self).state.ram() == pre.ram()))
                &&& (t.instruction.operation == Operation::PHA ==> (final(self).state.sp == w8(pre.sp - 1) && final(self).state.a == pre.a && final(self).state.x == pre.x && final(self).state.y == pre.y && final(self).state.status == pre.status && final(self).state.ram() == upd_if(pre.ram(), pre.plain(stack_addr(pre.sp)), stack_addr(pre.sp), pre.a)))
                &&& (t.instruction.operation == Operation::PHP ==> (final(self).state.sp == w8(pre.sp - 1) && final(self).state.a == pre.a && final(self).state.x == pre.x && final(self).state.y == pre.y && final(self).state.status == pre.status && final(self).state.ram() == upd_if(pre.ram(), pre.plain(stack_addr(pre.sp)), stack_addr(pre.sp), (pre.status | 0x30))))
                &&& (t.instruction.operation == Operation::PLA ==> (final(self).state.sp == w8(pre.sp + 1) && final(self).state.x == pre.x && final(self).state.y == pre.y && final(self).state.ram() == pre.ram() && final(self).state.status == st_set_n(st_set_z(pre.status, final(self).state.a), final(self).state.a) && (pre.plain(stack_addr(w8(pre.sp + 1))) ==> final(self).state.a == pre.ram()[stack_addr(w8(pre.sp + 1)) as int])))
                &&& (t.instruction.operation == Operation::PLP ==> (final(self).state.sp == w8(pre.sp + 1) && final(self).state.a == pre.a && final(self).state.x == pre.x && final(self).state.y == pre.y && final(self).state.ram() == pre.ram() && (pre.plain(stack_addr(w8(pre.sp + 1))) ==> final(self).state.status == (pre.ram()[stack_addr(w8(pre.sp + 1)) as int] & 0xEF))))
            }),
            r matches Ok(t) ==> ({
                let pre = (CPUState { pc: w16(old(self).state.pc + 1), ..old(self).state });
                &&& (is_branch(t.instruction.operation) ==> (final(self).state.a == pre.a && final(self).state.x == pre.x && final(self).state.y == pre.y && final(self).state.sp == pre.sp && final(self).state.status == pre.status && final(self).state.ram() == pre.ram()))
                &&& (t.instruction.operation == Operation::JMP ==> (final(self).state.a == pre.a && final(self).state.x == pre.x && final(self).state.y == pre.y && final(self).state.sp == pre.sp && final(self).state.status == pre.status && final(self).state.ram() == pre.ram() && (pre.ea_plain(t.instruction.mode) ==> final(self).state.pc == pre.ea(t.instruction.mode))))
                &&& (t.instruction.operation == Operation::JSR ==> (final(self).state.sp == w8(pre.sp - 2) && final(self).state.a == pre.a && final(self).state.x == pre.x && final(self).state.y == pre.y && final(self).state.status == pre.status && final(self).state.ram() == upd_if(upd_if(pre.ram(), pre.plain(stack_addr(pre.sp)), stack_addr(pre.sp), hi8(w16(pre.pc + operand_len(t.instruction.mode) - 1))), pre.plain(stack_addr(w8(pre.sp - 1))), stack_addr(w8(pre.sp - 1)), lo8(w16(pre.pc + operand_len(t.instruction.mode) - 1))) && (pre.ea_plain(t.instruction.mode) ==> final(self).state.pc == pre.ea(t.instruction.mode))))
                &&& (t.instruction.operation == Operation::RTS ==> (final(self).state.sp == w8(pre.sp + 2) && final(self).state.a == pre.a && final(self).state.x == pre.x && final(self).state.y == pre.y && final(self).state.status == pre.status && final(self).state.ram() == pre.ram() && (pre.plain(stack_addr(w8(pre.sp + 1))) && pre.plain(stack_addr(w8(pre.sp + 2))) ==> final(self).state.pc == w16(word_from(pre.ram()[stack_addr(w8(pre.sp + 1)) as int], pre.ram()[stack_addr(w8(pre.sp + 2)) as int]) + 1))))
                &&& (t.instruction.operation == Operation::RTI ==> (final(self).state.sp == w8(pre.sp + 3) && final(self).state.a == pre.a && final(self).state.x == pre.x && final(self).state.y == pre.y && final(self).state.ram() == pre.ram() && (pre.plain(stack_addr(w8(pre.sp + 1))) ==> final(self).state.status == (pre.ram()[stack_addr(w8(pre.sp + 1)) as int] & 0xEF)) && (pre.plain(stack_addr(w8(pre.sp + 2))) && pre.plain(stack_addr(w8(pre.sp + 3))) ==> final(self).state.pc == word_from(pre.ram()[stack_addr(w8(pre.sp + 2)) as int], pre.ram()[stack_addr(w8(pre.sp + 3)) as int]))))
                &&& (t.instruction.operation == Operation::BRK ==> (final(self).state.sp == w8(pre.sp - 3) && final(self).state.a == pre.a && final(self).state.x == pre.x && final(self).state.y == pre.y && final(self).state.status == (pre.status | 0x04) && final(self).state.ram() == upd_if(upd_if(upd_if(pre.ram(), pre.plain(stack_addr(pre.sp)), stack_addr(pre.sp), hi8(w16(pre.pc + 1))), pre.plain(stack_addr(w8(pre.sp - 1))), stack_addr(w8(pre.sp - 1)), lo8(w16(pre.pc + 1))), pre.plain(stack_addr(w8(pre.sp - 2))), stack_addr(w8(pre.sp - 2)), (pre.status | 0x30)) && (pre.plain(0xFFFE) && pre.plain(0xFFFF) ==> final(self).state.pc == word_at(final(self).state.ram(), 0xFFFE))))
            }),
    {
        let pc = self.state.pc;
        let opcode = self.state.fetch_byte();
        let instruction = match opcode_to_instruction(opcode) {
            Some(i) => i,
            None => {
                return Err(DecodeError { opcode, pc });
            },
        };
        let operand = self.read_operand(instruction.mode);

        self.dispatch(instruction);

        self.state.increment_cycles(instruction.cycles as u64);

        Ok(
            Trace::new(
                pc,
                self.state.a,
                self.state.x,
                self.state.y,
                self.state.sp,
                self.state.status,
                instruction,
                operand,
            ),
        )
    }



    /// Execute the CPU until the cycle counter reaches `cycles`, or without
    /// bound if `cycles` is 0.
    ///
    /// Stops early with a `DecodeError` if an undocumented opcode is
    /// fetched, and silently once the cycle counter comes within one
    /// instruction of its maximum (a practical impossibility).
    pub fn execute(&mut self, cycles: u64) -> (r: Result<(), DecodeError>)
        ensures
            final(self).state.plain_same(old(self).state),
            r matches Ok(_) && cycles != 0 ==> final(self).state.cycles >= cycles || final(self).state.cycles > u64::MAX - 16,
            r matches Err(e) ==> decode(e.opcode) is None,
    {
        loop
            invariant
                self.state.plain_same(old(self).state),
            decreases u64::MAX - self.state.cycles,
        {
            if !(self.state.cycles < cycles || cycles == 0) {
                return Ok(());
            }
            if self.state.cycles > u64::MAX - 16 {
                return Ok(());
            }
            match self.step() {
                Ok(_) => {},
                Err(e) => {
                    return Err(e);
                },
            }
        }
    }
}

} // verus!
