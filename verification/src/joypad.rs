//! The joypad latch: register P1 (0xFF00). The host input surface hands the
//! current button state in as a plain byte; one machine cycle latches it and
//! reports whether any button was newly pressed, so the bus can raise the
//! joypad interrupt on each falling edge.

use vstd::prelude::*;

verus! {

/// The joypad state: the matrix-line selection written to P1 (bits 5..4),
/// the current button state from the host (bit set = held; bits 3..0 the
/// direction keys, bits 7..4 the action keys), and the state latched by the
/// previous machine cycle, for edge detection.
#[derive(Copy, Clone, Debug, PartialEq, Eq, Structural)]
pub struct Joypad {
    pub select: u8,
    pub pressed: u8,
    pub prev: u8,
}

/// One machine cycle of the joypad: the previous state is replaced by the
/// current one, and the event is true exactly when some button is held now
/// that was not held before.
pub open spec fn joypad_step(j: Joypad) -> (Joypad, bool) {
    (Joypad { prev: j.pressed, ..j }, j.pressed & !j.prev != 0)
}

/// Whether the joypad owns this bus address.
pub open spec fn joypad_owns(address: u16) -> bool {
    address == 0xFF00
}

/// The byte read from P1: bits 7..6 read as one, bits 5..4 echo the
/// selection, and the low nibble has a zero for each held key on a selected
/// matrix line (bit 4 low selects the direction keys, bit 5 low the action
/// keys).
pub open spec fn joypad_spec_read(j: Joypad) -> u8 {
    0xC0 | j.select | joypad_nibble(j)
}

/// The low nibble of a P1 read.
pub open spec fn joypad_nibble(j: Joypad) -> u8 {
    let direction = if j.select & 0x10 == 0 {
        j.pressed & 0x0F
    } else {
        0u8
    };
    let action = if j.select & 0x20 == 0 {
        (j.pressed >> 4) & 0x0F
    } else {
        0u8
    };
    0x0F & !(direction | action)
}

/// The joypad after a write to P1: only the two selection bits are stored.
pub open spec fn joypad_spec_write(j: Joypad, value: u8) -> Joypad {
    Joypad { select: value & 0x30, ..j }
}

impl Joypad {
    /// A fresh joypad: neither matrix line selected, no button held.
    pub fn new() -> (r: Joypad)
        ensures
            r == (Joypad { select: 0x30, pressed: 0, prev: 0 }),
    {
        Joypad { select: 0x30, pressed: 0, prev: 0 }
    }

    /// Reads P1; None for any other address.
    pub fn read(&self, address: u16) -> (r: Option<u8>)
        ensures
            r == if joypad_owns(address) {
                Some(joypad_spec_read(*self))
            } else {
                None::<u8>
            },
    {
        if address == 0xFF00 {
            let direction = if self.select & 0x10 == 0 {
                self.pressed & 0x0F
            } else {
                0u8
            };
            let action = if self.select & 0x20 == 0 {
                (self.pressed >> 4) & 0x0F
            } else {
                0u8
            };
            Some(0xC0 | self.select | (0x0F & !(direction | action)))
        } else {
            None
        }
    }

    /// Writes P1; true iff the address was claimed.
    pub fn write(&mut self, address: u16, value: u8) -> (claimed: bool)
        ensures
            claimed == joypad_owns(address),
            *final(self) == if joypad_owns(address) {
                joypad_spec_write(*old(self), value)
            } else {
                *old(self)
            },
    {
        if address == 0xFF00 {
            self.select = value & 0x30;
            true
        } else {
            false
        }
    }

    /// Hands the current state of the host input surface to the joypad: one
    /// bit per button, set while the button is held.
    pub fn set_pressed(&mut self, state: u8)
        ensures
            *final(self) == (Joypad { pressed: state, ..*old(self) }),
    {
        self.pressed = state;
    }

    /// Advances the joypad by one machine cycle; true exactly when a button
    /// was newly pressed since the previous cycle.
    pub fn machine_cycle(&mut self) -> (r: bool)
        ensures
            *final(self) == joypad_step(*old(self)).0,
            r == joypad_step(*old(self)).1,
    {
        let newly = self.pressed & !self.prev != 0;
        self.prev = self.pressed;
        newly
    }
}

} // verus!
