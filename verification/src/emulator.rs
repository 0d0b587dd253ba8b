//! The demo host's machine: PIA-mapped memory seeded with a program and a
//! reset vector, and the hexadecimal argument parser of its command line.

use vstd::prelude::*;
use vstd::string::*;

use crate::cpu::CPU;
use crate::mapped_memory::MappedMemory;
use crate::memory::Memory;
use crate::pia::PIAChip;
use crate::state::CPUState;
use crate::state::RESET_VECTOR_ADDR;
use crate::state::hi8;
use crate::state::lo8;
use crate::state::word_from;

verus! {

/// A machine description: the queue endpoints that its PIA will bridge.
pub struct Emulator {
    kbd_rx: std::sync::mpsc::Receiver<u8>,
    dsp_tx: std::sync::mpsc::Sender<u8>,
}

impl Emulator {
    pub fn new(kbd_rx: std::sync::mpsc::Receiver<u8>, dsp_tx: std::sync::mpsc::Sender<u8>) -> (r:
        Emulator) {
        Emulator { kbd_rx, dsp_tx }
    }

    /// Build the machine: 64 KiB of PIA-mapped memory holding `program` at
    /// `load_address`, the reset vector pointing at `start_address`, and a
    /// CPU that has been reset, so that PC is `start_address`.
    ///
    /// The host then steps the returned CPU at its target clock rate.
    pub fn boot(self, program: Vec<u8>, load_address: u16, start_address: u16) -> (r: CPU<
        MappedMemory,
    >)
        requires
            load_address + program@.len() <= 0x10000,
        ensures
            r.state.pc == start_address,
            r.state.a == 0 && r.state.x == 0 && r.state.y == 0,
            r.state.sp == 0xFF,
            r.state.status == 0x36,
            r.state.cycles == 0,
            r.state.ram().len() == 0x10000,
            forall|a: u16| #[trigger] r.state.plain(a) <==> !(0xD010 <= a <= 0xD013),
            forall|j: int|
                0 <= j < program@.len() && r.state.plain((load_address + j) as u16) && load_address
                    + j != 0xFFFC && load_address + j != 0xFFFD ==> r.state.ram()[load_address + j]
                    == program@[j],
            r.state.ram()[0xFFFC] == lo8(start_address),
            r.state.ram()[0xFFFD] == hi8(start_address),
            forall|a: u16|
                !(load_address <= a < load_address + program@.len()) && a != 0xFFFC && a != 0xFFFD
                    ==> r.state.ram()[a as int] == 0u8,
    {
        let chip = PIAChip::new(self.kbd_rx, self.dsp_tx);
        let mut mem = MappedMemory::new(chip);

        let n = program.len();
        let mut i: usize = 0;
        while i < n
            invariant
                n == program@.len(),
                i <= n,
                load_address + n <= 0x10000,
                mem.ram().len() == 0x10000,
                forall|a: u16| #[trigger] mem.plain(a) <==> !(0xD010 <= a <= 0xD013),
                forall|j: int|
                    0 <= j < i && mem.plain((load_address + j) as u16) ==> mem.ram()[load_address
                        + j] == program@[j],
                forall|a: u16|
                    !(load_address <= a < load_address + i) ==> mem.ram()[a as int] == 0u8,
            decreases n - i,
        {
            mem.set(load_address + i as u16, program[i]);
            i = i + 1;
        }

        let mut cpu_state = CPUState::new(mem);
        cpu_state.write_word(RESET_VECTOR_ADDR, start_address);
        cpu_state.reset();
        proof {
            crate::laws::lemma_word_from_split(start_address);
        }
        CPU::new(cpu_state)
    }
}

/// Whether a byte is an ASCII hexadecimal digit.
pub open spec fn is_hex_digit(b: u8) -> bool {
    (0x30 <= b <= 0x39) || (0x41 <= b <= 0x46) || (0x61 <= b <= 0x66)
}

/// The value of one ASCII hexadecimal digit.
pub open spec fn hex_digit_val(b: u8) -> int {
    if 0x30 <= b <= 0x39 {
        b - 0x30
    } else if 0x41 <= b <= 0x46 {
        b - 0x41 + 10
    } else {
        b - 0x61 + 10
    }
}

/// The bytes with every leading `0x` pair removed, as repeated prefix
/// trimming leaves them.
pub open spec fn strip_hex_prefix(s: Seq<u8>) -> Seq<u8>
    decreases s.len(),
{
    if s.len() >= 2 && s[0] == 0x30u8 && s[1] == 0x78u8 {
        strip_hex_prefix(s.skip(2))
    } else {
        s
    }
}

/// The bytes with one leading ASCII `+` removed, as an unsigned number
/// parse accepts it.
pub open spec fn strip_sign(s: Seq<u8>) -> Seq<u8> {
    if s.len() > 0 && s[0] == 0x2Bu8 {
        s.skip(1)
    } else {
        s
    }
}

pub open spec fn all_hex_digits(s: Seq<u8>) -> bool {
    forall|i: int| 0 <= i < s.len() ==> is_hex_digit(#[trigger] s[i])
}

/// The number the hexadecimal digit string denotes.
pub open spec fn hex_value(s: Seq<u8>) -> int
    decreases s.len(),
{
    if s.len() == 0 {
        0
    } else {
        hex_value(s.drop_last()) * 16 + hex_digit_val(s.last())
    }
}

/// Whether the whole argument parses as a 16-bit hexadecimal number: after
/// the `0x` prefixes and an optional `+`, at least one digit, all of them
/// hexadecimal, denoting a value that fits in 16 bits.
pub open spec fn parse_hex_ok(s: Seq<u8>) -> bool {
    let t = strip_sign(strip_hex_prefix(s));
    t.len() > 0 && all_hex_digits(t) && hex_value(t) <= 0xFFFF
}

proof fn lemma_hex_value_nonneg(s: Seq<u8>)
    requires
        all_hex_digits(s),
    ensures
        hex_value(s) >= 0,
    decreases s.len(),
{
    if s.len() > 0 {
        assert(all_hex_digits(s.drop_last()));
        lemma_hex_value_nonneg(s.drop_last());
    }
}

/// A digit string's value is at least the value of any of its prefixes:
/// appending digits can only grow the number.
proof fn lemma_hex_value_prefix(s: Seq<u8>, m: int)
    requires
        0 <= m <= s.len(),
        all_hex_digits(s),
    ensures
        hex_value(s.take(m)) <= hex_value(s),
    decreases s.len() - m,
{
    if m == s.len() {
        assert(s.take(m) =~= s);
    } else {
        lemma_hex_value_prefix(s, m + 1);
        assert(s.take(m + 1).drop_last() =~= s.take(m));
        assert(s.take(m + 1).last() == s[m]);
        assert(all_hex_digits(s.take(m)));
        lemma_hex_value_nonneg(s.take(m));
    }
}

/// Parses a hexadecimal string into a u16.
///
/// Accepts any number of leading `0x` pairs (they are trimmed away), then
/// an optional `+`, then hexadecimal digits.  Fails on an empty digit
/// string, a non-digit byte, or a value over `0xFFFF`; the error carries a
/// short description.
pub fn parse_hex(value: &str) -> (r: Result<u16, String>)
    ensures
        (r is Ok) <==> parse_hex_ok(value.spec_bytes()),
        r matches Ok(v) ==> v == hex_value(strip_sign(strip_hex_prefix(value.spec_bytes()))),
{
    let bytes = value.as_bytes();
    let n = bytes.len();

    let mut i: usize = 0;
    proof {
        assert(bytes@.skip(0) =~= bytes@);
    }
    while i < n && i + 1 < n && bytes[i] == 0x30 && bytes[i + 1] == 0x78
        invariant
            bytes@ == value.spec_bytes(),
            n == bytes@.len(),
            i <= n,
            strip_hex_prefix(bytes@) == strip_hex_prefix(bytes@.skip(i as int)),
        decreases n - i,
    {
        proof {
            assert(bytes@.skip(i as int).skip(2) =~= bytes@.skip(i as int + 2));
        }
        i = i + 2;
    }
    proof {
        assert(strip_hex_prefix(bytes@) == bytes@.skip(i as int));
    }

    let start: usize = if i < n && bytes[i] == 0x2B {
        proof {
            assert(bytes@.skip(i as int).skip(1) =~= bytes@.skip(i as int + 1));
        }
        i + 1
    } else {
        i
    };
    let ghost t = strip_sign(strip_hex_prefix(bytes@));
    proof {
        assert(t =~= bytes@.skip(start as int));
    }

    if start == n {
        return Err(String::from_str("cannot parse integer from empty string"));
    }
    let mut acc: u32 = 0;
    let mut k: usize = start;
    while k < n
        invariant
            bytes@ == value.spec_bytes(),
            n == bytes@.len(),
            start <= k <= n,
            start < n,
            t == strip_sign(strip_hex_prefix(value.spec_bytes())),
            t == bytes@.skip(start as int),
            acc <= 0xFFFF,
            all_hex_digits(t.take(k - start)),
            acc == hex_value(t.take(k - start)),
        decreases n - k,
    {
        let b = bytes[k];
        let d: u32 = if 0x30 <= b && b <= 0x39 {
            (b - 0x30) as u32
        } else if 0x41 <= b && b <= 0x46 {
            (b - 0x41 + 10) as u32
        } else if 0x61 <= b && b <= 0x66 {
            (b - 0x61 + 10) as u32
        } else {
            proof {
                assert(t[k - start] == b);
            }
            return Err(String::from_str("invalid digit found in string"));
        };
        let acc2 = acc * 16 + d;
        proof {
            assert(t.take(k - start + 1).drop_last() =~= t.take(k - start));
            assert(t.take(k - start + 1).last() == t[k - start]);
            assert(t[k - start] == b);
        }
        if acc2 > 0xFFFF {
            proof {
                if all_hex_digits(t) && hex_value(t) <= 0xFFFF {
                    lemma_hex_value_prefix(t, k - start + 1);
                }
            }
            return Err(String::from_str("number too large to fit in target type"));
        }
        acc = acc2;
        k = k + 1;
    }
    proof {
        assert(t.take(n - start) =~= t);
    }
    Ok(acc as u16)
}

} // verus!
