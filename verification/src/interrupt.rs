//! The interrupt controller: the pending-requests register IF (0xFF0F) and
//! the interrupt-enable register IE (0xFFFF). Subsystem events raised during
//! a machine cycle are unioned into IF.

use vstd::prelude::*;

verus! {

/// One of the four interrupt sources this core generates. The serial
/// interrupt is not generated here.
#[derive(Copy, Clone, Debug, PartialEq, Eq, Structural)]
pub enum InterruptId {
    VBlankInt,
    StatInt,
    TimerInt,
    JoypadInt,
}

impl InterruptId {
    /// The bit this source occupies in IF and IE: VBlank 0, STAT 1,
    /// Timer 2, Joypad 4 (bit 3 is the serial interrupt, never raised here).
    pub open spec fn spec_mask(self) -> u8 {
        match self {
            InterruptId::VBlankInt => 0x01,
            InterruptId::StatInt => 0x02,
            InterruptId::TimerInt => 0x04,
            InterruptId::JoypadInt => 0x10,
        }
    }

    /// The bit this source occupies in IF and IE.
    pub fn mask(self) -> (r: u8)
        ensures
            r == self.spec_mask(),
    {
        match self {
            InterruptId::VBlankInt => 0x01,
            InterruptId::StatInt => 0x02,
            InterruptId::TimerInt => 0x04,
            InterruptId::JoypadInt => 0x10,
        }
    }
}

/// The union of the masks of a sequence of interrupt sources.
pub open spec fn ids_mask(ids: Seq<InterruptId>) -> u8
    decreases ids.len(),
{
    if ids.len() == 0 {
        0
    } else {
        ids_mask(ids.drop_last()) | ids.last().spec_mask()
    }
}

/// The interrupt controller: pending requests (IF) and enabled sources (IE).
#[derive(Copy, Clone, Debug, PartialEq, Eq, Structural)]
pub struct InterruptHandler {
    pub flag: u8,
    pub enable: u8,
}

/// Whether the interrupt controller owns this bus address.
pub open spec fn interrupt_owns(address: u16) -> bool {
    address == 0xFF0F || address == 0xFFFF
}

/// The byte read from an interrupt-controller register: IF reads with its
/// three unimplemented high bits set, IE reads back as stored.
pub open spec fn interrupt_spec_read(ih: InterruptHandler, address: u16) -> u8 {
    if address == 0xFF0F {
        ih.flag | 0xE0
    } else {
        ih.enable
    }
}

/// The controller after a write to one of its registers.
pub open spec fn interrupt_spec_write(ih: InterruptHandler, address: u16, value: u8) -> InterruptHandler {
    if address == 0xFF0F {
        InterruptHandler { flag: value, ..ih }
    } else {
        InterruptHandler { enable: value, ..ih }
    }
}

impl InterruptHandler {
    /// A fresh controller with no request pending and no source enabled.
    pub fn new() -> (r: InterruptHandler)
        ensures
            r == (InterruptHandler { flag: 0, enable: 0 }),
    {
        InterruptHandler { flag: 0, enable: 0 }
    }

    /// Reads IF or IE; None for any other address.
    pub fn read(&self, address: u16) -> (r: Option<u8>)
        ensures
            r == if interrupt_owns(address) {
                Some(interrupt_spec_read(*self, address))
            } else {
                None::<u8>
            },
    {
        if address == 0xFF0F {
            Some(self.flag | 0xE0)
        } else if address == 0xFFFF {
            Some(self.enable)
        } else {
            None
        }
    }

    /// Writes IF or IE; true iff the address was claimed.
    pub fn write(&mut self, address: u16, value: u8) -> (claimed: bool)
        ensures
            claimed == interrupt_owns(address),
            *final(self) == if interrupt_owns(address) {
                interrupt_spec_write(*old(self), address, value)
            } else {
                *old(self)
            },
    {
        if address == 0xFF0F {
            self.flag = value;
            true
        } else if address == 0xFFFF {
            self.enable = value;
            true
        } else {
            false
        }
    }

    /// Sets (value true) or clears (value false) the IF bits of the given
    /// interrupt sources, leaving every other bit alone.
    pub fn set(&mut self, interrupts: Vec<InterruptId>, value: bool)
        ensures
            value ==> final(self).flag == old(self).flag | ids_mask(interrupts@),
            !value ==> final(self).flag == old(self).flag & !ids_mask(interrupts@),
            final(self).enable == old(self).enable,
    {
        let mut mask: u8 = 0;
        let mut i: usize = 0;
        while i < interrupts.len()
            invariant
                i <= interrupts.len(),
                mask == ids_mask(interrupts@.take(i as int)),
            decreases interrupts.len() - i,
        {
            proof {
                assert(interrupts@.take(i + 1).drop_last() =~= interrupts@.take(i as int));
                assert(interrupts@.take(i + 1).last() == interrupts@[i as int]);
            }
            mask = mask | interrupts[i].mask();
            i = i + 1;
        }
        proof {
            assert(interrupts@.take(interrupts@.len() as int) =~= interrupts@);
        }
        if value {
            self.flag = self.flag | mask;
        } else {
            self.flag = self.flag & !mask;
        }
    }
}

} // verus!
