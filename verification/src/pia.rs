//! The peripheral interface adapter: four memory-mapped registers bridging
//! a keyboard input queue and a display output queue.
//!
//! | Address  | Read                                   | Write                |
//! |----------|----------------------------------------|----------------------|
//! | `0xD010` | latched keyboard byte; clears the latch| keyboard data        |
//! | `0xD011` | `0xFF` if a byte is available, else 0  | keyboard control     |
//! | `0xD012` | display data (reset after each send)   | send byte to display |
//! | `0xD013` | display control                        | display control      |
//!
//! A display write strips bit 7 of the byte and maps carriage return to
//! line feed before the byte is queued outbound; a keyboard byte is mapped
//! the other way and has bit 7 set before it is queued inbound.  The queue
//! of bytes the chip has sent is modelled by the ghost `sent` sequence.

use vstd::prelude::*;

verus! {

#[verifier::external_type_specification]
#[verifier::external_body]
#[verifier::reject_recursive_types(T)]
pub struct ExReceiver<T>(std::sync::mpsc::Receiver<T>);

#[verifier::external_type_specification]
#[verifier::external_body]
#[verifier::reject_recursive_types(T)]
pub struct ExSender<T>(std::sync::mpsc::Sender<T>);

/// Relies on std::sync::mpsc::Receiver::try_recv: returns a queued byte if
/// one is waiting, without blocking.  Which byte, if any, depends on what
/// the sending thread has queued, so nothing is promised of the result.
#[verifier::external_body]
fn poll_byte(rx: &std::sync::mpsc::Receiver<u8>) -> (r: Option<u8>) {
    match rx.try_recv() {
        Ok(v) => Some(v),
        Err(_) => None,
    }
}

/// Relies on std::sync::mpsc::Sender::send: queues the byte for the
/// receiving end.  A send to a disconnected receiver is dropped.
#[verifier::external_body]
fn send_byte(tx: &std::sync::mpsc::Sender<u8>, value: u8) {
    let _ = tx.send(value);
}

/// The byte a display write sends outbound: bit 7 stripped, carriage
/// return mapped to line feed.
pub open spec fn display_byte_spec(b: u8) -> u8 {
    if b & 0x7F == 0x0D {
        0x0A
    } else {
        b & 0x7F
    }
}

/// Transform a byte for the display: strip bit 7, map CR to LF.
pub fn display_byte(b: u8) -> (r: u8)
    ensures
        r == display_byte_spec(b),
{
    let c = b & 0x7F;
    if c == 0x0D {
        0x0A
    } else {
        c
    }
}

/// The byte a keyboard press queues inbound: line feed mapped to carriage
/// return, then bit 7 set.
pub open spec fn keyboard_byte_spec(b: u8) -> u8 {
    if b == 0x0A {
        0x0Du8 | 0x80
    } else {
        b | 0x80
    }
}

/// Transform a byte from the keyboard: map LF to CR, set bit 7.
pub fn keyboard_byte(b: u8) -> (r: u8)
    ensures
        r == keyboard_byte_spec(b),
{
    let c = if b == 0x0A {
        0x0D
    } else {
        b
    };
    c | 0x80
}

/// The keyboard status report and the new latch, given the current latch
/// and what a poll of the inbound queue returned: available (`0xFF`)
/// exactly when a byte is latched or one was pulled, and a pulled byte is
/// latched.
pub open spec fn kbd_status_spec(latch: u8, polled: Option<u8>) -> (u8, u8) {
    if latch != 0 {
        (0xFF, latch)
    } else {
        match polled {
            Some(v) => (0xFF, v),
            None => (0, latch),
        }
    }
}

/// Decide the keyboard status register's value after a poll.
///
/// Returns the status byte and the new latch: `0xFF` exactly when a byte
/// is latched or the poll yielded one (the polled byte is then latched),
/// else `0x00` with the latch untouched.
pub fn kbd_status(latch: u8, polled: Option<u8>) -> (r: (u8, u8))
    ensures
        r == kbd_status_spec(latch, polled),
        r.0 == 0xFF <==> (latch != 0 || polled is Some),
        r.0 == 0xFF || r.0 == 0,
{
    if latch != 0 {
        (0xFF, latch)
    } else {
        match polled {
            Some(v) => (0xFF, v),
            None => (0, latch),
        }
    }
}

/// The PIA registers, the two queue endpoints they bridge, and the ghost
/// record of every byte sent outbound.
pub struct PIAChip {
    pub kbd_data: u8,
    pub kbd_control: u8,
    pub display_data: u8,
    pub display_control: u8,
    pub rx: std::sync::mpsc::Receiver<u8>,
    pub tx: std::sync::mpsc::Sender<u8>,
    pub sent: Ghost<Seq<u8>>,
}

impl PIAChip {
    pub fn new(rx: std::sync::mpsc::Receiver<u8>, tx: std::sync::mpsc::Sender<u8>) -> (r: PIAChip)
        ensures
            r.kbd_data == 0 && r.kbd_control == 0 && r.display_data == 0 && r.display_control == 0,
            r.sent@ == Seq::<u8>::empty(),
    {
        PIAChip {
            kbd_data: 0,
            kbd_control: 0,
            display_data: 0,
            display_control: 0,
            rx,
            tx,
            sent: Ghost(Seq::empty()),
        }
    }

    /// Read a PIA register.
    ///
    /// Reading the keyboard data register clears its latch; reading the
    /// keyboard status register polls the inbound queue when nothing is
    /// latched and reports per `kbd_status`.  Any other address reads as
    /// zero.  Which byte a poll yields, if any, depends on the sending
    /// thread, so the status outcome is stated for whatever came back.
    pub fn read(&mut self, address: u16) -> (r: u8)
        ensures
            final(self).kbd_control == old(self).kbd_control,
            final(self).display_data == old(self).display_data,
            final(self).display_control == old(self).display_control,
            final(self).sent == old(self).sent,
            address == 0xD010 ==> r == old(self).kbd_data && final(self).kbd_data == 0,
            address == 0xD011 ==> exists|polled: Option<u8>|
                {
                    &&& (old(self).kbd_data != 0 ==> polled is None)
                    &&& (r, final(self).kbd_data) == kbd_status_spec(old(self).kbd_data, polled)
                },
            address == 0xD011 ==> ({
                &&& (r == 0xFF || r == 0)
                &&& (old(self).kbd_data != 0 ==> r == 0xFF && final(self).kbd_data == old(
                    self,
                ).kbd_data)
                &&& (r == 0 ==> final(self).kbd_data == old(self).kbd_data)
            }),
            address == 0xD012 ==> r == old(self).display_data && final(self).kbd_data == old(
                self,
            ).kbd_data,
            !(address == 0xD010 || address == 0xD011) ==> final(self).kbd_data == old(
                self,
            ).kbd_data,
            address == 0xD013 ==> r == old(self).display_control,
            !(address == 0xD010 || address == 0xD011 || address == 0xD012 || address == 0xD013)
                ==> r == 0,
    {
        match address {
            0xD010 => {
                let data = self.kbd_data;
                self.kbd_data = 0;
                data
            },
            0xD011 => {
                let polled = if self.kbd_data == 0 {
                    poll_byte(&self.rx)
                } else {
                    None
                };
                let (c, latch) = kbd_status(self.kbd_data, polled);
                self.kbd_data = latch;
                proof {
                    assert((c, latch) == kbd_status_spec(old(self).kbd_data, polled));
                }
                c
            },
            0xD012 => self.display_data,
            0xD013 => self.display_control,
            _ => 0,
        }
    }

    /// Write a PIA register.
    ///
    /// Writing the display data register sends the transformed byte
    /// (`display_byte`) to the outbound queue, records it in the ghost
    /// `sent` sequence, and resets the register to zero.  Any other
    /// address is ignored.
    pub fn write(&mut self, address: u16, value: u8)
        ensures
            address == 0xD010 ==> final(self).kbd_data == value,
            address != 0xD010 ==> final(self).kbd_data == old(self).kbd_data,
            address == 0xD011 ==> final(self).kbd_control == value,
            address != 0xD011 ==> final(self).kbd_control == old(self).kbd_control,
            address == 0xD012 ==> final(self).display_data == 0,
            address != 0xD012 ==> final(self).display_data == old(self).display_data,
            address == 0xD013 ==> final(self).display_control == value,
            address != 0xD013 ==> final(self).display_control == old(self).display_control,
            address == 0xD012 ==> final(self).sent@ == old(self).sent@.push(
                display_byte_spec(value),
            ),
            address != 0xD012 ==> final(self).sent == old(self).sent,
    {
        match address {
            0xD010 => {
                self.kbd_data = value;
            },
            0xD011 => {
                self.kbd_control = value;
            },
            0xD012 => {
                self.display_data = value;
                let out = display_byte(value);
                send_byte(&self.tx, out);
                proof {
                    self.sent = Ghost(self.sent@.push(out));
                }
                self.display_data = 0;
            },
            0xD013 => {
                self.display_control = value;
            },
            _ => (),
        }
    }
}

} // verus!
