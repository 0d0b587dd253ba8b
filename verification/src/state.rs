//! The processor state: registers, flags, cycle counter, and the stack,
//! vector and operand-fetch primitives layered over the memory bus.

use vstd::prelude::*;

use crate::instruction::AddressingMode;
use crate::instruction::is_address_mode;
use crate::instruction::is_value_mode;
use crate::instruction::operand_len;
use crate::memory::Memory;

verus! {

/// Stack page start address.
pub const STACK_PAGE: u16 = 0x100;

/// Address where the reset vector is stored.
pub const RESET_VECTOR_ADDR: u16 = 0xFFFC;

/// Address where the IRQ vector is stored.
pub const IRQ_VECTOR_ADDR: u16 = 0xFFFE;

/// Wrap an integer into the 16-bit address space.
pub open spec fn w16(x: int) -> u16 {
    (x % 0x10000) as u16
}

/// Wrap an integer into an 8-bit register.
pub open spec fn w8(x: int) -> u8 {
    (x % 0x100) as u8
}

/// The low byte of a 16-bit word.
pub open spec fn lo8(w: u16) -> u8 {
    (w % 0x100) as u8
}

/// The high byte of a 16-bit word.
pub open spec fn hi8(w: u16) -> u8 {
    (w / 0x100) as u8
}

/// The word formed from a low and a high byte (little-endian order).
pub open spec fn word_from(lo: u8, hi: u8) -> u16 {
    (lo + 0x100 * hi) as u16
}

/// The little-endian word stored at `address` (the high byte is read at the
/// 16-bit successor of `address`, wrapping at the top of the address space).
pub open spec fn word_at(m: Seq<u8>, address: u16) -> u16 {
    word_from(m[address as int], m[w16(address + 1) as int])
}

/// `m` with the cell at `address` set to `v` if `c` holds, else `m` itself;
/// how a write through the bus affects the RAM model.
pub open spec fn upd_if(m: Seq<u8>, c: bool, address: u16, v: u8) -> Seq<u8> {
    if c {
        m.update(address as int, v)
    } else {
        m
    }
}

/// The byte read as a signed displacement, in `-128..=127`.
pub open spec fn sext8(b: u8) -> int {
    if b >= 0x80 {
        b - 0x100
    } else {
        b as int
    }
}

/// The address in page 1 that the stack pointer names.
pub open spec fn stack_addr(sp: u8) -> u16 {
    (0x100 + sp) as u16
}

/// Status register `P` after writing the N flag from bit 7 of `v`.
pub open spec fn st_set_n(p: u8, v: u8) -> u8 {
    if v & 0x80 != 0 {
        p | 0x80
    } else {
        p & 0x7F
    }
}

/// Status register `P` after writing the Z flag from `v == 0`.
pub open spec fn st_set_z(p: u8, v: u8) -> u8 {
    if v == 0 {
        p | 0x02
    } else {
        p & 0xFD
    }
}

/// Status register `P` after writing the C flag from `v != 0`.
pub open spec fn st_set_c(p: u8, v: u8) -> u8 {
    if v != 0 {
        p | 0x01
    } else {
        p & 0xFE
    }
}

/// Status register `P` after writing the V flag.
pub open spec fn st_set_v(p: u8, v: bool) -> u8 {
    if v {
        p | 0x40
    } else {
        p & 0xBF
    }
}

/// Status register `P` after writing the D flag from `v != 0`.
pub open spec fn st_set_d(p: u8, v: u8) -> u8 {
    if v != 0 {
        p | 0x08
    } else {
        p & 0xF7
    }
}

/// The N flag of `P`, as 0 or 1.
pub open spec fn st_n(p: u8) -> u8 {
    (p & 0x80) >> 7
}

/// The V flag of `P`, as 0 or 1.
pub open spec fn st_v(p: u8) -> u8 {
    (p & 0x40) >> 6
}

/// The D flag of `P`, as 0 or 1.
pub open spec fn st_d(p: u8) -> u8 {
    (p & 0x08) >> 3
}

/// The Z flag of `P`, as 0 or 1.
pub open spec fn st_z(p: u8) -> u8 {
    (p & 0x02) >> 1
}

/// The C flag of `P`, as 0 or 1.
pub open spec fn st_c(p: u8) -> u8 {
    p & 0x01
}

/// Each flag getter yields 0 or 1.
pub broadcast proof fn lemma_flag_bits_bounded(p: u8)
    by (bit_vector)
    ensures
        #[trigger] st_n(p) <= 1,
        #[trigger] st_v(p) <= 1,
        #[trigger] st_d(p) <= 1,
        #[trigger] st_z(p) <= 1,
        #[trigger] st_c(p) <= 1,
{
}

/// Represents the state of the CPU.
pub struct CPUState<T: Memory> {
    pub memory: T,
    pub a: u8,
    pub x: u8,
    pub y: u8,
    pub pc: u16,
    pub sp: u8,
    pub status: u8,
    pub cycles: u64,
}

impl<T: Memory> CPUState<T> {
    /// The bytes held by the plain RAM cells of the attached bus.
    pub open spec fn ram(&self) -> Seq<u8> {
        self.memory.ram()
    }

    /// Whether `address` is backed by plain RAM on the attached bus.
    pub open spec fn plain(&self, address: u16) -> bool {
        self.memory.plain(address)
    }

    /// Both states see the same RAM contents and the same RAM map.
    pub open spec fn mem_same(self, other: Self) -> bool {
        self.ram() == other.ram() && self.plain_same(other)
    }

    /// Both states map the same addresses to plain RAM.
    pub open spec fn plain_same(self, other: Self) -> bool {
        forall|a: u16| (#[trigger] self.memory.plain(a)) == other.memory.plain(a)
    }

    /// All registers and the cycle counter agree.
    pub open spec fn regs_same(self, other: Self) -> bool {
        self.a == other.a && self.x == other.x && self.y == other.y && self.pc == other.pc
            && self.sp == other.sp && self.status == other.status && self.cycles == other.cycles
    }

    pub fn new(memory: T) -> (r: CPUState<T>)
        ensures
            r.a == 0 && r.x == 0 && r.y == 0 && r.pc == 0 && r.sp == 0 && r.status == 0
                && r.cycles == 0,
            r.memory == memory,
    {
        CPUState { a: 0, x: 0, y: 0, pc: 0, sp: 0, status: 0, cycles: 0, memory }
    }

    /// Resets the CPU to the initial state and sets PC to the reset vector.
    pub fn reset(&mut self)
        ensures
            final(self).a == 0 && final(self).x == 0 && final(self).y == 0,
            final(self).sp == 0xFF,
            final(self).status == 0x36,
            final(self).cycles == 0,
            final(self).mem_same(*old(self)),
            old(self).plain(0xFFFC) && old(self).plain(0xFFFD) ==> final(self).pc == word_at(
                old(self).ram(),
                0xFFFC,
            ),
    {
        self.a = 0;
        self.x = 0;
        self.y = 0;
        self.sp = 0xFF;
        self.status = 0x36;
        self.cycles = 0;
        let pc = self.read_word(RESET_VECTOR_ADDR);
        self.pc = pc;
    }

    pub fn read_byte(&mut self, address: u16) -> (r: u8)
        ensures
            final(self).regs_same(*old(self)),
            final(self).mem_same(*old(self)),
            old(self).plain(address) ==> r == old(self).ram()[address as int],
    {
        self.memory.get(address)
    }

    pub fn write_byte(&mut self, address: u16, value: u8)
        ensures
            final(self).regs_same(*old(self)),
            final(self).plain_same(*old(self)),
            final(self).ram() == upd_if(old(self).ram(), old(self).plain(address), address, value),
    {
        self.memory.set(address, value);
    }

    /// Reads the little-endian word at `address`; the high byte comes from
    /// the 16-bit successor of `address`, wrapping at the top of memory.
    pub fn read_word(&mut self, address: u16) -> (r: u16)
        ensures
            final(self).regs_same(*old(self)),
            final(self).mem_same(*old(self)),
            old(self).plain(address) && old(self).plain(w16(address + 1)) ==> r == word_at(
                old(self).ram(),
                address,
            ),
    {
        let low = self.read_byte(address);
        let high = self.read_byte(address.wrapping_add(1));
        (high as u16) * 0x100 + (low as u16)
    }

    /// Writes `value` as a little-endian word at `address`.
    pub fn write_word(&mut self, address: u16, value: u16)
        ensures
            final(self).regs_same(*old(self)),
            final(self).plain_same(*old(self)),
            final(self).ram() == upd_if(
                upd_if(old(self).ram(), old(self).plain(address), address, lo8(value)),
                old(self).plain(w16(address + 1)),
                w16(address + 1),
                hi8(value),
            ),
    {
        let low = (value % 0x100) as u8;
        let high = (value / 0x100) as u8;
        self.write_byte(address, low);
        self.write_byte(address.wrapping_add(1), high);
    }

    /// Fetch the next byte at PC and increment PC.
    pub fn fetch_byte(&mut self) -> (r: u8)
        ensures
            final(self).pc == w16(old(self).pc + 1),
            final(self).a == old(self).a && final(self).x == old(self).x && final(self).y == old(self).y && final(self).sp == old(self).sp && final(self).status == old(self).status
                && final(self).cycles == old(self).cycles,
            final(self).mem_same(*old(self)),
            old(self).plain(old(self).pc) ==> r == old(self).ram()[old(self).pc as int],
    {
        let byte = self.read_byte(self.pc);
        self.pc = self.pc.wrapping_add(1);
        byte
    }

    /// Fetch the next word at PC and increment PC by two.
    pub fn fetch_word(&mut self) -> (r: u16)
        ensures
            final(self).pc == w16(old(self).pc + 2),
            final(self).a == old(self).a && final(self).x == old(self).x && final(self).y == old(self).y && final(self).sp == old(self).sp && final(self).status == old(self).status
                && final(self).cycles == old(self).cycles,
            final(self).mem_same(*old(self)),
            old(self).plain(old(self).pc) && old(self).plain(w16(old(self).pc + 1)) ==> r
                == word_at(old(self).ram(), old(self).pc),
    {
        let word = self.read_word(self.pc);
        self.pc = self.pc.wrapping_add(2);
        word
    }

    /// Push a byte to stack.
    pub fn push_byte(&mut self, value: u8)
        ensures
            final(self).sp == w8(old(self).sp - 1),
            final(self).a == old(self).a && final(self).x == old(self).x && final(self).y == old(self).y && final(self).pc == old(self).pc && final(self).status == old(self).status
                && final(self).cycles == old(self).cycles,
            final(self).plain_same(*old(self)),
            final(self).ram() == upd_if(
                old(self).ram(),
                old(self).plain(stack_addr(old(self).sp)),
                stack_addr(old(self).sp),
                value,
            ),
    {
        self.write_byte(STACK_PAGE + self.sp as u16, value);
        self.sp = self.sp.wrapping_sub(1);
    }

    /// Push a word to stack: high byte first, then low byte, so that a
    /// subsequent `pop_word` yields the original word.
    pub fn push_word(&mut self, value: u16)
        ensures
            final(self).sp == w8(old(self).sp - 2),
            final(self).a == old(self).a && final(self).x == old(self).x && final(self).y == old(self).y && final(self).pc == old(self).pc && final(self).status == old(self).status
                && final(self).cycles == old(self).cycles,
            final(self).plain_same(*old(self)),
            final(self).ram() == upd_if(
                upd_if(
                    old(self).ram(),
                    old(self).plain(stack_addr(old(self).sp)),
                    stack_addr(old(self).sp),
                    hi8(value),
                ),
                old(self).plain(stack_addr(w8(old(self).sp - 1))),
                stack_addr(w8(old(self).sp - 1)),
                lo8(value),
            ),
    {
        let low = (value % 0x100) as u8;
        let high = (value / 0x100) as u8;
        self.push_byte(high);
        self.push_byte(low);
    }

    /// Pop a byte from stack.
    pub fn pop_byte(&mut self) -> (r: u8)
        ensures
            final(self).sp == w8(old(self).sp + 1),
            final(self).a == old(self).a && final(self).x == old(self).x && final(self).y == old(self).y && final(self).pc == old(self).pc && final(self).status == old(self).status
                && final(self).cycles == old(self).cycles,
            final(self).mem_same(*old(self)),
            old(self).plain(stack_addr(w8(old(self).sp + 1))) ==> r == old(self).ram()[stack_addr(
                w8(old(self).sp + 1),
            ) as int],
    {
        self.sp = self.sp.wrapping_add(1);
        self.read_byte(0x100 + self.sp as u16)
    }

    /// Pop a word from stack: low byte first, then high byte.
    pub fn pop_word(&mut self) -> (r: u16)
        ensures
            final(self).sp == w8(old(self).sp + 2),
            final(self).a == old(self).a && final(self).x == old(self).x && final(self).y == old(self).y && final(self).pc == old(self).pc && final(self).status == old(self).status
                && final(self).cycles == old(self).cycles,
            final(self).mem_same(*old(self)),
            old(self).plain(stack_addr(w8(old(self).sp + 1))) && old(self).plain(
                stack_addr(w8(old(self).sp + 2)),
            ) ==> r == word_from(
                old(self).ram()[stack_addr(w8(old(self).sp + 1)) as int],
                old(self).ram()[stack_addr(w8(old(self).sp + 2)) as int],
            ),
    {
        let low = self.pop_byte();
        let high = self.pop_byte();
        (high as u16) * 0x100 + (low as u16)
    }

    pub fn get_a(&self) -> (r: u8)
        ensures
            r == self.a,
    {
        self.a
    }

    pub fn get_x(&self) -> (r: u8)
        ensures
            r == self.x,
    {
        self.x
    }

    pub fn get_y(&self) -> (r: u8)
        ensures
            r == self.y,
    {
        self.y
    }

    pub fn increment_cycles(&mut self, cycles: u64)
        requires
            old(self).cycles + cycles <= u64::MAX,
        ensures
            final(self).cycles == old(self).cycles + cycles,
            final(self).a == old(self).a && final(self).x == old(self).x && final(self).y == old(self).y && final(self).pc == old(self).pc && final(self).sp == old(self).sp && final(self).status == old(self).status,
            final(self).mem_same(*old(self)),
    {
        self.cycles = self.cycles + cycles;
    }

    pub fn set_pc(&mut self, value: u16)
        ensures
            final(self).pc == value,
            final(self).a == old(self).a && final(self).x == old(self).x && final(self).y == old(self).y && final(self).sp == old(self).sp && final(self).status == old(self).status
                && final(self).cycles == old(self).cycles,
            final(self).mem_same(*old(self)),
    {
        self.pc = value;
    }

    pub fn set_a(&mut self, value: u8)
        ensures
            final(self).a == value,
            final(self).x == old(self).x && final(self).y == old(self).y && final(self).pc == old(self).pc && final(self).sp == old(self).sp && final(self).status == old(self).status
                && final(self).cycles == old(self).cycles,
            final(self).mem_same(*old(self)),
    {
        self.a = value;
    }

    pub fn set_x(&mut self, value: u8)
        ensures
            final(self).x == value,
            final(self).a == old(self).a && final(self).y == old(self).y && final(self).pc == old(self).pc && final(self).sp == old(self).sp && final(self).status == old(self).status
                && final(self).cycles == old(self).cycles,
            final(self).mem_same(*old(self)),
    {
        self.x = value;
    }

    pub fn set_y(&mut self, value: u8)
        ensures
            final(self).y == value,
            final(self).a == old(self).a && final(self).x == old(self).x && final(self).pc == old(self).pc && final(self).sp == old(self).sp && final(self).status == old(self).status
                && final(self).cycles == old(self).cycles,
            final(self).mem_same(*old(self)),
    {
        self.y = value;
    }

    pub fn set_n(&mut self, value: u8)
        ensures
            final(self).status == st_set_n(old(self).status, value),
            final(self).a == old(self).a && final(self).x == old(self).x && final(self).y == old(self).y && final(self).pc == old(self).pc && final(self).sp == old(self).sp && final(self).cycles == old(self).cycles,
            final(self).mem_same(*old(self)),
    {
        if value & 0x80 != 0 {
            self.status = self.status | 0x80;
        } else {
            self.status = self.status & 0x7F;
        }
    }

    pub fn set_z(&mut self, value: u8)
        ensures
            final(self).status == st_set_z(old(self).status, value),
            final(self).a == old(self).a && final(self).x == old(self).x && final(self).y == old(self).y && final(self).pc == old(self).pc && final(self).sp == old(self).sp && final(self).cycles == old(self).cycles,
            final(self).mem_same(*old(self)),
    {
        if value == 0 {
            self.status = self.status | 0x02;
        } else {
            self.status = self.status & 0xFD;
        }
    }

    pub fn set_c(&mut self, value: u8)
        ensures
            final(self).status == st_set_c(old(self).status, value),
            final(self).a == old(self).a && final(self).x == old(self).x && final(self).y == old(self).y && final(self).pc == old(self).pc && final(self).sp == old(self).sp && final(self).cycles == old(self).cycles,
            final(self).mem_same(*old(self)),
    {
        if value != 0 {
            self.status = self.status | 0x01;
        } else {
            self.status = self.status & 0xFE;
        }
    }

    pub fn set_v(&mut self, v: bool)
        ensures
            final(self).status == st_set_v(old(self).status, v),
            final(self).a == old(self).a && final(self).x == old(self).x && final(self).y == old(self).y && final(self).pc == old(self).pc && final(self).sp == old(self).sp && final(self).cycles == old(self).cycles,
            final(self).mem_same(*old(self)),
    {
        if v {
            self.status = self.status | 0x40;
        } else {
            self.status = self.status & 0xBF;
        }
    }

    pub fn get_v(&self) -> (r: u8)
        ensures
            r == st_v(self.status),
    {
        (self.status & 0x40) >> 6
    }

    pub fn get_n(&self) -> (r: u8)
        ensures
            r == st_n(self.status),
    {
        (self.status & 0x80) >> 7
    }

    pub fn get_c(&self) -> (r: u8)
        ensures
            r == st_c(self.status),
    {
        self.status & 0x01
    }

    pub fn get_z(&self) -> (r: u8)
        ensures
            r == st_z(self.status),
    {
        (self.status & 0x02) >> 1
    }

    pub fn set_d(&mut self, value: u8)
        ensures
            final(self).status == st_set_d(old(self).status, value),
            final(self).a == old(self).a && final(self).x == old(self).x && final(self).y == old(self).y && final(self).pc == old(self).pc && final(self).sp == old(self).sp && final(self).cycles == old(self).cycles,
            final(self).mem_same(*old(self)),
    {
        if value != 0 {
            self.status = self.status | 0x08;
        } else {
            self.status = self.status & 0xF7;
        }
    }

    pub fn get_d(&self) -> (r: u8)
        ensures
            r == st_d(self.status),
    {
        (self.status & 0x08) >> 3
    }

    /// The effective address an instruction with addressing mode `mode`
    /// resolves to, as a function of the pre-state (PC at the first operand
    /// byte).  Meaningful only where `ea_plain(mode)` holds.
    pub open spec fn ea(self, mode: AddressingMode) -> u16 {
        let m = self.ram();
        let op1 = m[self.pc as int];
        match mode {
            AddressingMode::ZPG => op1 as u16,
            AddressingMode::ZPGX => w8(op1 + self.x) as u16,
            AddressingMode::ZPGY => w8(op1 + self.y) as u16,
            AddressingMode::ABS => word_at(m, self.pc),
            AddressingMode::ABSX => w16(word_at(m, self.pc) + self.x),
            AddressingMode::ABSY => w16(word_at(m, self.pc) + self.y),
            AddressingMode::IND => word_at(m, word_at(m, self.pc)),
            AddressingMode::XIND => {
                let zp = w8(op1 + self.x);
                word_from(m[zp as int], m[w8(zp + 1) as int])
            },
            AddressingMode::INDY => w16(word_at(m, op1 as u16) + self.y),
            AddressingMode::REL => w16(self.pc + 1 + sext8(op1)),
            _ => 0,
        }
    }

    /// Whether every byte consulted while resolving the effective address
    /// for `mode` lies in plain RAM, so that `ea(mode)` names the address
    /// the resolver actually produces.
    pub open spec fn ea_plain(self, mode: AddressingMode) -> bool {
        let m = self.ram();
        let op1 = m[self.pc as int];
        match mode {
            AddressingMode::ZPG => self.plain(self.pc),
            AddressingMode::ZPGX => self.plain(self.pc),
            AddressingMode::ZPGY => self.plain(self.pc),
            AddressingMode::ABS => self.plain(self.pc) && self.plain(w16(self.pc + 1)),
            AddressingMode::ABSX => self.plain(self.pc) && self.plain(w16(self.pc + 1)),
            AddressingMode::ABSY => self.plain(self.pc) && self.plain(w16(self.pc + 1)),
            AddressingMode::IND => self.plain(self.pc) && self.plain(w16(self.pc + 1)) && {
                let ptr = word_at(m, self.pc);
                self.plain(ptr) && self.plain(w16(ptr + 1))
            },
            AddressingMode::XIND => self.plain(self.pc) && {
                let zp = w8(op1 + self.x);
                self.plain(zp as u16) && self.plain(w8(zp + 1) as u16)
            },
            AddressingMode::INDY => self.plain(self.pc) && self.plain(op1 as u16) && self.plain(
                w16(op1 + 1),
            ),
            AddressingMode::REL => self.plain(self.pc),
            _ => true,
        }
    }

    /// The operand byte an instruction with addressing mode `mode` consumes,
    /// as a function of the pre-state.  Meaningful only where
    /// `operand_plain(mode)` holds.
    pub open spec fn operand(self, mode: AddressingMode) -> u8 {
        match mode {
            AddressingMode::ACC => self.a,
            AddressingMode::IMM => self.ram()[self.pc as int],
            _ => self.ram()[self.ea(mode) as int],
        }
    }

    /// Whether every byte consulted while fetching the operand for `mode`
    /// lies in plain RAM.
    pub open spec fn operand_plain(self, mode: AddressingMode) -> bool {
        match mode {
            AddressingMode::ACC => true,
            AddressingMode::IMM => self.plain(self.pc),
            _ => self.ea_plain(mode) && self.plain(self.ea(mode)),
        }
    }

    /// Resolve the effective address of an instruction.
    ///
    /// PC must point at the first operand byte; it advances past the
    /// operand.  For `REL` the result is the branch target relative to the
    /// instruction byte following the displacement.
    #[verifier::rlimit(60)]
    pub fn resolve_address(&mut self, mode: AddressingMode) -> (r: u16)
        requires
            is_address_mode(mode),
        ensures
            final(self).pc == w16(old(self).pc + operand_len(mode)),
            final(self).a == old(self).a && final(self).x == old(self).x && final(self).y == old(self).y && final(self).sp == old(self).sp && final(self).status == old(self).status
                && final(self).cycles == old(self).cycles,
            final(self).mem_same(*old(self)),
            old(self).ea_plain(mode) ==> r == old(self).ea(mode),
    {
        match mode {
            AddressingMode::ZPG => self.fetch_byte() as u16,
            AddressingMode::ZPGX => {
                let operand = self.fetch_byte();
                let address = operand.wrapping_add(self.x);
                address as u16
            },
            AddressingMode::ZPGY => {
                let operand = self.fetch_byte();
                let address = operand.wrapping_add(self.y);
                address as u16
            },
            AddressingMode::ABS => self.fetch_word(),
            AddressingMode::ABSX => {
                let operand = self.fetch_word();
                let address = operand.wrapping_add(self.x as u16);
                address
            },
            AddressingMode::ABSY => {
                let operand = self.fetch_word();
                let address = operand.wrapping_add(self.y as u16);
                address
            },
            AddressingMode::IND => {
                let indirect_address = self.fetch_word();
                self.read_word(indirect_address)
            },
            AddressingMode::XIND => {
                let operand = self.fetch_byte();
                // Wraps around to stay in zero-page, for the pointer byte
                // and for its high-byte successor alike.
                let zero_page_address = operand.wrapping_add(self.x);
                let low = self.read_byte(zero_page_address as u16);
                let high = self.read_byte(zero_page_address.wrapping_add(1) as u16);
                (high as u16) * 0x100 + (low as u16)
            },
            AddressingMode::INDY => {
                let zero_page_address = self.fetch_byte();
                let indirect_address = self.read_word(zero_page_address as u16);
                let effective_address = indirect_address.wrapping_add(self.y as u16);
                effective_address
            },
            _ => {
                // REL: the displacement is signed, relative to the PC after
                // the operand byte has been consumed.
                let unsigned_operand = self.fetch_byte();
                if unsigned_operand >= 0x80 {
                    self.pc.wrapping_sub(0x100 - unsigned_operand as u16)
                } else {
                    self.pc.wrapping_add(unsigned_operand as u16)
                }
            },
        }
    }

    /// Fetch the operand of an instruction.
    ///
    /// PC must point at the first operand byte; it advances past the
    /// operand (not at all for `ACC`).
    pub fn fetch_operand(&mut self, mode: AddressingMode) -> (r: u8)
        requires
            is_value_mode(mode),
        ensures
            final(self).pc == w16(old(self).pc + operand_len(mode)),
            final(self).a == old(self).a && final(self).x == old(self).x && final(self).y == old(self).y && final(self).sp == old(self).sp && final(self).status == old(self).status
                && final(self).cycles == old(self).cycles,
            final(self).mem_same(*old(self)),
            old(self).operand_plain(mode) ==> r == old(self).operand(mode),
    {
        match mode {
            AddressingMode::ACC => self.get_a(),
            AddressingMode::IMM => self.fetch_byte(),
            _ => {
                let address = self.resolve_address(mode);
                self.read_byte(address)
            },
        }
    }
}

} // verus!
