//! The interval timer: DIV (0xFF04), TIMA (0xFF05), TMA (0xFF06) and TAC
//! (0xFF07). One machine cycle advances the divider and, when the timer is
//! enabled, the counter; a TIMA overflow reloads it from TMA and reports the
//! overflow so the bus can raise the timer interrupt.

use vstd::prelude::*;

verus! {

/// The timer state: the four visible registers plus the two internal
/// machine-cycle counters that pace DIV and TIMA.
#[derive(Copy, Clone, Debug, PartialEq, Eq, Structural)]
pub struct Timer {
    pub divider: u8,
    pub tima: u8,
    pub tma: u8,
    pub tac: u8,
    pub div_counter: u8,
    pub tima_counter: u16,
}

/// Whether TAC bit 2 enables the TIMA counter.
pub open spec fn timer_enabled(tac: u8) -> bool {
    (tac / 4) % 2 == 1
}

/// The TIMA period selected by TAC bits 1..0, in machine cycles:
/// 256, 4, 16 or 64.
pub open spec fn timer_period(tac: u8) -> u16 {
    if tac % 4 == 0 {
        256
    } else if tac % 4 == 1 {
        4
    } else if tac % 4 == 2 {
        16
    } else {
        64
    }
}

/// One machine cycle of the timer: the new state and the value TIMA was
/// reloaded with, if it overflowed during this cycle.
pub open spec fn timer_step(t: Timer) -> (Timer, Option<u8>) {
    let divider = if t.div_counter >= 63 {
        if t.divider == 0xFF {
            0u8
        } else {
            (t.divider + 1) as u8
        }
    } else {
        t.divider
    };
    let div_counter = if t.div_counter >= 63 {
        0u8
    } else {
        (t.div_counter + 1) as u8
    };
    if timer_enabled(t.tac) {
        if t.tima_counter >= timer_period(t.tac) - 1 {
            if t.tima == 0xFF {
                (Timer { divider, div_counter, tima: t.tma, tima_counter: 0, ..t }, Some(t.tma))
            } else {
                (
                    Timer {
                        divider,
                        div_counter,
                        tima: (t.tima + 1) as u8,
                        tima_counter: 0,
                        ..t
                    },
                    None,
                )
            }
        } else {
            (
                Timer { divider, div_counter, tima_counter: (t.tima_counter + 1) as u16, ..t },
                None,
            )
        }
    } else {
        (Timer { divider, div_counter, ..t }, None)
    }
}

/// Whether the timer owns this bus address.
pub open spec fn timer_owns(address: u16) -> bool {
    0xFF04 <= address <= 0xFF07
}

/// The byte read from a timer register.
pub open spec fn timer_spec_read(t: Timer, address: u16) -> u8 {
    if address == 0xFF04 {
        t.divider
    } else if address == 0xFF05 {
        t.tima
    } else if address == 0xFF06 {
        t.tma
    } else {
        t.tac
    }
}

/// The timer after a write to one of its registers: a write to DIV resets
/// the divider and its pacing counter, whatever the value written.
pub open spec fn timer_spec_write(t: Timer, address: u16, value: u8) -> Timer {
    if address == 0xFF04 {
        Timer { divider: 0, div_counter: 0, ..t }
    } else if address == 0xFF05 {
        Timer { tima: value, ..t }
    } else if address == 0xFF06 {
        Timer { tma: value, ..t }
    } else {
        Timer { tac: value, ..t }
    }
}

impl Timer {
    /// A fresh timer with every register and counter at zero.
    pub fn new() -> (r: Timer)
        ensures
            r == (Timer { divider: 0, tima: 0, tma: 0, tac: 0, div_counter: 0, tima_counter: 0 }),
    {
        Timer { divider: 0, tima: 0, tma: 0, tac: 0, div_counter: 0, tima_counter: 0 }
    }

    /// Reads a timer register; None for any other address.
    pub fn read(&self, address: u16) -> (r: Option<u8>)
        ensures
            r == if timer_owns(address) {
                Some(timer_spec_read(*self, address))
            } else {
                None::<u8>
            },
    {
        if address == 0xFF04 {
            Some(self.divider)
        } else if address == 0xFF05 {
            Some(self.tima)
        } else if address == 0xFF06 {
            Some(self.tma)
        } else if address == 0xFF07 {
            Some(self.tac)
        } else {
            None
        }
    }

    /// Writes a timer register; true iff the address was claimed.
    pub fn write(&mut self, address: u16, value: u8) -> (claimed: bool)
        ensures
            claimed == timer_owns(address),
            *final(self) == if timer_owns(address) {
                timer_spec_write(*old(self), address, value)
            } else {
                *old(self)
            },
    {
        if address == 0xFF04 {
            self.divider = 0;
            self.div_counter = 0;
            true
        } else if address == 0xFF05 {
            self.tima = value;
            true
        } else if address == 0xFF06 {
            self.tma = value;
            true
        } else if address == 0xFF07 {
            self.tac = value;
            true
        } else {
            false
        }
    }

    /// Advances the timer by one machine cycle. Some(reload value) exactly
    /// when TIMA overflowed during this cycle.
    pub fn machine_cycle(&mut self) -> (r: Option<u8>)
        ensures
            *final(self) == timer_step(*old(self)).0,
            r == timer_step(*old(self)).1,
    {
        if self.div_counter >= 63 {
            self.div_counter = 0;
            self.divider = if self.divider == 0xFF {
                0
            } else {
                self.divider + 1
            };
        } else {
            self.div_counter = self.div_counter + 1;
        }
        if (self.tac / 4) % 2 == 1 {
            let period: u16 = if self.tac % 4 == 0 {
                256
            } else if self.tac % 4 == 1 {
                4
            } else if self.tac % 4 == 2 {
                16
            } else {
                64
            };
            if self.tima_counter >= period - 1 {
                self.tima_counter = 0;
                if self.tima == 0xFF {
                    self.tima = self.tma;
                    return Some(self.tma);
                } else {
                    self.tima = self.tima + 1;
                }
            } else {
                self.tima_counter = self.tima_counter + 1;
            }
        }
        None
    }
}

} // verus!
