//! A minimal single-struct interpreter covering a handful of opcodes,
//! executed directly against a `CPUState`.  It predates the full decode
//! table and is kept for the smallest demo programs; its opcode mapping and
//! flag behaviour are preserved exactly as they are, quirks included.

use vstd::prelude::*;

use crate::cpu::DecodeError;
use crate::memory::Memory;
use crate::state::CPUState;
use crate::state::st_set_c;
use crate::state::st_set_n;
use crate::state::st_set_z;
use crate::state::w16;
use crate::state::stack_addr;
use crate::state::upd_if;
use crate::state::w8;
use crate::state::word_at;

verus! {

/// The opcodes this reduced interpreter recognizes.
pub open spec fn reduced_opcode(opcode: u8) -> bool {
    opcode == 0x00 || opcode == 0x01 || opcode == 0x05 || opcode == 0x06 || opcode == 0x08
        || opcode == 0x09 || opcode == 0x18 || opcode == 0x4C || opcode == 0x85 || opcode == 0xA2
        || opcode == 0xA9
}

/// The reduced interpreter, the processor state it drives, and a ghost
/// count of the instructions it has executed.
pub struct InstructionSet<T: Memory> {
    pub cpu: CPUState<T>,
    pub steps: Ghost<nat>,
}

impl<T: Memory> InstructionSet<T> {
    pub fn new(cpu: CPUState<T>) -> (r: InstructionSet<T>)
        ensures
            r.cpu == cpu,
            r.steps@ == 0,
    {
        InstructionSet { cpu, steps: Ghost(0) }
    }

    /// Execute until the cycle counter reaches `cycles` (without bound if
    /// `cycles` is 0), or until an opcode outside the reduced set is
    /// fetched.  A normal return with a non-zero target means the counter
    /// reached it, up to two safety stops that a caller can observe: the
    /// counter coming within one instruction of its maximum, or the ghost
    /// instruction count having grown by the largest machine-representable
    /// number of iterations.
    pub fn execute(&mut self, cycles: u64) -> (r: Result<(), DecodeError>)
        ensures
            final(self).cpu.plain_same(old(self).cpu),
            r matches Err(e) ==> !reduced_opcode(e.opcode),
            r matches Ok(_) && cycles != 0 ==> final(self).cpu.cycles >= cycles || final(self).cpu.cycles > u64::MAX - 4 || final(self).steps@ >= old(self).steps@ + u64::MAX,
    {
        let mut guard: u64 = 0;
        loop
            invariant
                self.cpu.plain_same(old(self).cpu),
                self.steps@ == old(self).steps@ + guard,
            decreases u64::MAX - guard,
        {
            if !(self.cpu.cycles < cycles || cycles == 0) {
                return Ok(());
            }
            if self.cpu.cycles > u64::MAX - 4 || guard == u64::MAX {
                return Ok(());
            }
            guard = guard + 1;
            proof {
                self.steps = Ghost(self.steps@ + 1);
            }
            let pc = self.cpu.pc;
            let opcode = self.cpu.fetch_byte();
            match opcode {
                0x00 => self.brk_impl(),
                0x01 => self.ora_xind(),
                0x05 => self.ora_zpg(),
                0x06 => self.asl_zpg(),
                0x08 => self.php_impl(),
                0x09 => self.ora_imm(),
                0x18 => self.nop(),
                0x4C => self.jmp_abs(),
                0x85 => self.cli_impl(),
                0xA2 => self.ldx_imm(),
                0xA9 => self.lda_imm(),
                _ => {
                    return Err(DecodeError { opcode, pc });
                },
            }
        }
    }

    /// The reduced interpreter treats a `BRK` opcode as a no-op.
    fn brk_impl(&mut self)
        ensures
            *final(self) == *old(self),
    {
    }

    /// A reduced `(zp,X)` OR: the operand plus X names the address
    /// directly (no zero-page pointer is followed), and only the flags are
    /// updated; the accumulator keeps its value.
    fn ora_xind(&mut self)
        ensures
            final(self).steps == old(self).steps,
            final(self).cpu.a == old(self).cpu.a,
            final(self).cpu.x == old(self).cpu.x,
            final(self).cpu.y == old(self).cpu.y,
            final(self).cpu.sp == old(self).cpu.sp,
            final(self).cpu.cycles == old(self).cpu.cycles,
            final(self).cpu.pc == w16(old(self).cpu.pc + 1),
            final(self).cpu.mem_same(old(self).cpu),
            ({
                let operand = old(self).cpu.ram()[old(self).cpu.pc as int];
                let address = (old(self).cpu.x + operand) as u16;
                old(self).cpu.plain(old(self).cpu.pc) && old(self).cpu.plain(address) ==> ({
                    let v = (old(self).cpu.a | old(self).cpu.ram()[address as int]);
                    final(self).cpu.status == st_set_n(st_set_z(old(self).cpu.status, v), v)
                })
            }),
    {
        let operand = self.cpu.fetch_byte();
        let address = self.cpu.x as u16 + operand as u16;
        let value = self.cpu.read_byte(address);
        let a = self.cpu.get_a() | value;
        self.cpu.set_z(a);
        self.cpu.set_n(a);
    }

    fn ora_zpg(&mut self)
        ensures
            final(self).steps == old(self).steps,
            final(self).cpu.x == old(self).cpu.x,
            final(self).cpu.y == old(self).cpu.y,
            final(self).cpu.sp == old(self).cpu.sp,
            final(self).cpu.cycles == old(self).cpu.cycles,
            final(self).cpu.pc == w16(old(self).cpu.pc + 1),
            final(self).cpu.mem_same(old(self).cpu),
            final(self).cpu.status == st_set_n(
                st_set_z(old(self).cpu.status, final(self).cpu.a),
                final(self).cpu.a,
            ),
            ({
                let operand = old(self).cpu.ram()[old(self).cpu.pc as int];
                old(self).cpu.plain(old(self).cpu.pc) && old(self).cpu.plain(operand as u16)
                    ==> final(self).cpu.a == (old(self).cpu.a | old(self).cpu.ram()[operand as int])
            }),
    {
        let operand = self.cpu.fetch_byte();
        let value = self.cpu.read_byte(operand as u16);
        let a = self.cpu.get_a() | value;
        self.cpu.set_a(a);
        self.cpu.set_z(a);
        self.cpu.set_n(a);
    }

    /// A reduced zero-page ASL; the carry is written from the raw high bit
    /// of the original value (any non-zero value sets C).
    fn asl_zpg(&mut self)
        ensures
            final(self).steps == old(self).steps,
            final(self).cpu.a == old(self).cpu.a,
            final(self).cpu.x == old(self).cpu.x,
            final(self).cpu.y == old(self).cpu.y,
            final(self).cpu.sp == old(self).cpu.sp,
            final(self).cpu.cycles == old(self).cpu.cycles,
            final(self).cpu.pc == w16(old(self).cpu.pc + 1),
            final(self).cpu.plain_same(old(self).cpu),
            ({
                let operand = old(self).cpu.ram()[old(self).cpu.pc as int];
                old(self).cpu.plain(old(self).cpu.pc) && old(self).cpu.plain(operand as u16)
                    ==> ({
                    let v = old(self).cpu.ram()[operand as int];
                    let r = (v << 1) as u8;
                    &&& final(self).cpu.ram() == old(self).cpu.ram().update(operand as int, r)
                    &&& final(self).cpu.status == st_set_c(
                        st_set_n(st_set_z(old(self).cpu.status, r), r),
                        (v & 0x80),
                    )
                })
            }),
    {
        let operand = self.cpu.fetch_byte();
        let value = self.cpu.read_byte(operand as u16);
        let c = value & 0x80;
        let result = value << 1;
        self.cpu.write_byte(operand as u16, result);
        self.cpu.set_z(result);
        self.cpu.set_n(result);
        self.cpu.set_c(c);
    }

    fn jmp_abs(&mut self)
        requires
            old(self).cpu.cycles < u64::MAX,
        ensures
            final(self).steps == old(self).steps,
            final(self).cpu.a == old(self).cpu.a,
            final(self).cpu.x == old(self).cpu.x,
            final(self).cpu.y == old(self).cpu.y,
            final(self).cpu.sp == old(self).cpu.sp,
            final(self).cpu.status == old(self).cpu.status,
            final(self).cpu.cycles == old(self).cpu.cycles + 1,
            final(self).cpu.mem_same(old(self).cpu),
            old(self).cpu.plain(old(self).cpu.pc) && old(self).cpu.plain(
                w16(old(self).cpu.pc + 1),
            ) ==> final(self).cpu.pc == word_at(old(self).cpu.ram(), old(self).cpu.pc),
    {
        let operand = self.cpu.fetch_word();
        self.cpu.set_pc(operand);
        self.cpu.increment_cycles(1);
    }

    /// Pushes the status with the break flag and bit 5 set in the copy.
    fn php_impl(&mut self)
        requires
            old(self).cpu.cycles < u64::MAX,
        ensures
            final(self).steps == old(self).steps,
            final(self).cpu.a == old(self).cpu.a,
            final(self).cpu.x == old(self).cpu.x,
            final(self).cpu.y == old(self).cpu.y,
            final(self).cpu.pc == old(self).cpu.pc,
            final(self).cpu.status == old(self).cpu.status,
            final(self).cpu.cycles == old(self).cpu.cycles + 1,
            final(self).cpu.sp == w8(old(self).cpu.sp - 1),
            final(self).cpu.plain_same(old(self).cpu),
            final(self).cpu.ram() == upd_if(
                old(self).cpu.ram(),
                old(self).cpu.plain(stack_addr(old(self).cpu.sp)),
                stack_addr(old(self).cpu.sp),
                (old(self).cpu.status | 0x30),
            ),
    {
        let status = self.cpu.status | 0x30;
        self.cpu.push_byte(status);
        self.cpu.cycles = self.cpu.cycles + 1;
    }

    fn ora_imm(&mut self)
        requires
            old(self).cpu.cycles < u64::MAX,
        ensures
            final(self).steps == old(self).steps,
            final(self).cpu.x == old(self).cpu.x,
            final(self).cpu.y == old(self).cpu.y,
            final(self).cpu.sp == old(self).cpu.sp,
            final(self).cpu.cycles == old(self).cpu.cycles + 1,
            final(self).cpu.pc == w16(old(self).cpu.pc + 1),
            final(self).cpu.mem_same(old(self).cpu),
            final(self).cpu.status == st_set_n(
                st_set_z(old(self).cpu.status, final(self).cpu.a),
                final(self).cpu.a,
            ),
            old(self).cpu.plain(old(self).cpu.pc) ==> final(self).cpu.a == (old(self).cpu.a | old(self).cpu.ram()[old(self).cpu.pc as int]),
    {
        let operand = self.cpu.fetch_byte();
        self.cpu.a = self.cpu.a | operand;
        let a = self.cpu.a;
        self.cpu.set_z(a);
        self.cpu.set_n(a);
        self.cpu.cycles = self.cpu.cycles + 1;
    }

    /// The reduced interpreter's idle opcode; it only consumes a cycle.
    fn nop(&mut self)
        requires
            old(self).cpu.cycles < u64::MAX,
        ensures
            final(self).steps == old(self).steps,
            final(self).cpu.a == old(self).cpu.a,
            final(self).cpu.x == old(self).cpu.x,
            final(self).cpu.y == old(self).cpu.y,
            final(self).cpu.sp == old(self).cpu.sp,
            final(self).cpu.pc == old(self).cpu.pc,
            final(self).cpu.status == old(self).cpu.status,
            final(self).cpu.cycles == old(self).cpu.cycles + 1,
            final(self).cpu.mem_same(old(self).cpu),
    {
        self.cpu.cycles = self.cpu.cycles + 1;
    }

    /// Clears bit 1 of the status register, exactly as written.
    fn cli_impl(&mut self)
        requires
            old(self).cpu.cycles < u64::MAX,
        ensures
            final(self).steps == old(self).steps,
            final(self).cpu.a == old(self).cpu.a,
            final(self).cpu.x == old(self).cpu.x,
            final(self).cpu.y == old(self).cpu.y,
            final(self).cpu.sp == old(self).cpu.sp,
            final(self).cpu.pc == old(self).cpu.pc,
            final(self).cpu.status == (old(self).cpu.status & 0xFD),
            final(self).cpu.cycles == old(self).cpu.cycles + 1,
            final(self).cpu.mem_same(old(self).cpu),
    {
        self.cpu.status = self.cpu.status & 0xFD;
        self.cpu.cycles = self.cpu.cycles + 1;
    }

    fn ldx_imm(&mut self)
        requires
            old(self).cpu.cycles < u64::MAX,
        ensures
            final(self).steps == old(self).steps,
            final(self).cpu.a == old(self).cpu.a,
            final(self).cpu.y == old(self).cpu.y,
            final(self).cpu.sp == old(self).cpu.sp,
            final(self).cpu.cycles == old(self).cpu.cycles + 1,
            final(self).cpu.pc == w16(old(self).cpu.pc + 1),
            final(self).cpu.mem_same(old(self).cpu),
            final(self).cpu.status == st_set_n(
                st_set_z(old(self).cpu.status, final(self).cpu.x),
                final(self).cpu.x,
            ),
            old(self).cpu.plain(old(self).cpu.pc) ==> final(self).cpu.x == old(self).cpu.ram()[old(self).cpu.pc as int],
    {
        let operand = self.cpu.fetch_byte();
        self.cpu.x = operand;
        let x = self.cpu.x;
        self.cpu.set_z(x);
        self.cpu.set_n(x);
        self.cpu.cycles = self.cpu.cycles + 1;
    }

    fn lda_imm(&mut self)
        requires
            old(self).cpu.cycles < u64::MAX,
        ensures
            final(self).steps == old(self).steps,
            final(self).cpu.x == old(self).cpu.x,
            final(self).cpu.y == old(self).cpu.y,
            final(self).cpu.sp == old(self).cpu.sp,
            final(self).cpu.cycles == old(self).cpu.cycles + 1,
            final(self).cpu.pc == w16(old(self).cpu.pc + 1),
            final(self).cpu.mem_same(old(self).cpu),
            final(self).cpu.status == st_set_n(
                st_set_z(old(self).cpu.status, final(self).cpu.a),
                final(self).cpu.a,
            ),
            old(self).cpu.plain(old(self).cpu.pc) ==> final(self).cpu.a == old(self).cpu.ram()[old(self).cpu.pc as int],
    {
        let operand = self.cpu.fetch_byte();
        self.cpu.a = operand;
        let a = self.cpu.a;
        self.cpu.set_z(a);
        self.cpu.set_n(a);
        self.cpu.cycles = self.cpu.cycles + 1;
    }
}

} // verus!
