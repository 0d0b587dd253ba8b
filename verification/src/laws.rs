//! Laws of the executor: properties that hold of every reachable state,
//! proved from the contracts in `state` and `cpu`.

use vstd::prelude::*;

use crate::cpu::adc_effect;
use crate::cpu::adc_v;
use crate::cpu::cmp_status;
use crate::cpu::sbc_effect;
use crate::state::hi8;
use crate::state::lo8;
use crate::state::sext8;
use crate::state::st_c;
use crate::state::st_d;
use crate::state::st_n;
use crate::state::st_set_c;
use crate::state::st_set_n;
use crate::state::st_set_v;
use crate::state::st_set_z;
use crate::state::st_v;
use crate::state::st_z;
use crate::state::stack_addr;
use crate::state::w16;
use crate::state::w8;
use crate::state::word_from;

verus! {

/// Splitting a word into its bytes and reassembling them is the identity.
pub proof fn lemma_word_from_split(w: u16)
    ensures
        word_from(lo8(w), hi8(w)) == w,
{
}

/// The Z flag is 1 exactly when the most recent flag update stored zero,
/// and the N flag mirrors bit 7 of that value.  Every result-forming
/// operation ends its status update with `st_set_n(st_set_z(_, r), r)`
/// over its result `r`, so this pins Z and N after each of them.
pub proof fn lemma_flags_track_result(p: u8, r: u8)
    by (bit_vector)
    ensures
        st_z(st_set_n(st_set_z(p, r), r)) == (if r == 0 {
            1u8
        } else {
            0u8
        }),
        st_n(st_set_n(st_set_z(p, r), r)) == (if r & 0x80 != 0 {
            1u8
        } else {
            0u8
        }),
{
}

/// A compare leaves C at 1 exactly when the register was at least the
/// operand, Z at 1 exactly on equality, and N mirroring bit 7 of the
/// wrapped difference.  Together with the unchanged registers in the
/// compare contracts this is the compare law.
pub proof fn lemma_cmp_flags(p: u8, reg: u8, v: u8)
    ensures
        st_c(cmp_status(p, reg, v)) == (if reg >= v {
            1u8
        } else {
            0u8
        }),
        st_z(cmp_status(p, reg, v)) == (if reg == v {
            1u8
        } else {
            0u8
        }),
        st_n(cmp_status(p, reg, v)) == (if w8(reg - v) & 0x80 != 0 {
            1u8
        } else {
            0u8
        }),
{
    let r = w8(reg - v);
    let c: u8 = if reg >= v {
        1
    } else {
        0
    };
    assert(r == 0 <==> reg == v);
    assert(st_c(st_set_n(st_set_z(st_set_c(p, c), r), r)) == (if c != 0 {
        1u8
    } else {
        0u8
    })) by (bit_vector);
    assert(st_z(st_set_n(st_set_z(st_set_c(p, c), r), r)) == (if r == 0 {
        1u8
    } else {
        0u8
    })) by (bit_vector);
    assert(st_n(st_set_n(st_set_z(st_set_c(p, c), r), r)) == (if r & 0x80 != 0 {
        1u8
    } else {
        0u8
    })) by (bit_vector);
}

/// Stack accesses always resolve to page 1, whatever the stack pointer
/// holds; SP arithmetic wraps modulo 256 without leaving the page.
pub proof fn lemma_stack_stays_in_page_one(sp: u8)
    ensures
        0x100 <= stack_addr(sp) <= 0x1FF,
{
}

/// Pushing a byte and popping it is the identity on the stack pointer and
/// yields the pushed value: the cell `push_byte` writes is exactly the
/// cell `pop_byte` reads back.
pub proof fn lemma_push_pop_byte(sp: u8, m: Seq<u8>, v: u8)
    requires
        m.len() == 0x10000,
    ensures
        w8(w8(sp - 1) + 1) == sp,
        m.update(stack_addr(sp) as int, v)[stack_addr(w8(w8(sp - 1) + 1)) as int] == v,
{
}

/// Pushing a word and popping it yields the pushed word and restores the
/// stack pointer: `push_word` writes the high byte then the low byte
/// downward, and `pop_word` reads them back upward in low-high order.
pub proof fn lemma_push_pop_word(sp: u8, m: Seq<u8>, v: u16)
    requires
        m.len() == 0x10000,
    ensures
        w8(w8(sp - 2) + 2) == sp,
        ({
            let m2 = m.update(stack_addr(sp) as int, hi8(v)).update(
                stack_addr(w8(sp - 1)) as int,
                lo8(v),
            );
            let sp1 = w8(sp - 2);
            word_from(m2[stack_addr(w8(sp1 + 1)) as int], m2[stack_addr(w8(sp1 + 2)) as int]) == v
        }),
{
    assert(w8(sp - 1) != sp);
    assert(word_from(lo8(v), hi8(v)) == v);
}

/// `JSR` at opcode address `w16(pc - 1)` runs with PC at its operand
/// (`pc`), pushes the return slot `w16(pc + 1)`, and a later `RTS` that
/// pops that slot resumes at `w16(pc + 2)`: three bytes past the JSR
/// opcode, the instruction after it.
pub proof fn lemma_jsr_rts_return(pc: u16)
    ensures
        ({
            let ret = w16(pc + 1);
            w16(word_from(lo8(ret), hi8(ret)) + 1) == w16(pc + 2)
        }),
{
    lemma_word_from_split(w16(pc + 1));
}

/// In binary mode, the carry-out and the new accumulator after `ADC`
/// together encode the unsigned 9-bit sum `A + value + C_in`, V is set
/// exactly on signed overflow, and Z and N describe the result.
pub proof fn lemma_adc_binary(a: u8, v: u8, c: u8, p: u8)
    requires
        st_d(p) == 0,
        st_c(p) == c,
    ensures
        ({
            let e = adc_effect(a, p, v);
            let sum = a + v + c;
            &&& (if sum > 0xFF {
                0x100int
            } else {
                0int
            }) + e.0 == sum
            &&& st_c(e.1) == (if sum > 0xFF {
                1u8
            } else {
                0u8
            })
            &&& (st_v(e.1) == 1 <==> !(-128 <= sext8(a) + sext8(v) + c <= 127))
            &&& st_z(e.1) == (if e.0 == 0 {
                1u8
            } else {
                0u8
            })
            &&& st_n(e.1) == (if e.0 >= 0x80 {
                1u8
            } else {
                0u8
            })
        }),
{
    crate::state::lemma_flag_bits_bounded(p);
    let sum = a + v + c;
    let r = w8(sum);
    let cf: u8 = if sum > 0xFF {
        1
    } else {
        0
    };
    let vf = adc_v(a, v, r);
    assert(st_c(st_set_n(st_set_z(st_set_v(st_set_c(p, cf), vf), r), r)) == (if cf != 0 {
        1u8
    } else {
        0u8
    })) by (bit_vector);
    assert(st_v(st_set_n(st_set_z(st_set_v(st_set_c(p, cf), vf), r), r)) == (if vf {
        1u8
    } else {
        0u8
    })) by (bit_vector);
    assert(st_z(st_set_n(st_set_z(st_set_v(st_set_c(p, cf), vf), r), r)) == (if r == 0 {
        1u8
    } else {
        0u8
    })) by (bit_vector);
    assert(st_n(st_set_n(st_set_z(st_set_v(st_set_c(p, cf), vf), r), r)) == (if r >= 0x80 {
        1u8
    } else {
        0u8
    })) by (bit_vector);
    assert(adc_v(a, v, r) <==> !(-128 <= sext8(a) + sext8(v) + c <= 127)) by (bit_vector)
        requires
            r == (a + v + c) % 0x100,
            c <= 1,
    ;
}

/// In binary mode, `SBC` with an operand is exactly `ADC` with the
/// complemented operand: same accumulator, same C, V, N and Z.
pub proof fn lemma_sbc_is_adc_complement(a: u8, p: u8, v: u8)
    requires
        st_d(p) == 0,
    ensures
        sbc_effect(a, p, v) == adc_effect(a, p, !v),
{
}

} // verus!
