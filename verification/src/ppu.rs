//! The PPU register window: VRAM, OAM, the control/scroll/palette registers
//! 0xFF40..=0xFF4B, the mode state machine that paces the 154 scanlines, and
//! the DMA engine's state. The pixel-renderer back-end that turns line state
//! into a framebuffer is an external collaborator and not modelled here.

use vstd::prelude::*;

verus! {

/// The four PPU modes of a DMG frame.
#[derive(Copy, Clone, Debug, PartialEq, Eq, Structural)]
pub enum PpuMode {
    HBlank,
    VBlank,
    OamSearch,
    PixelTransfer,
}

/// The DMA engine's state: a write to 0xFF46 arms it (Starting), the next
/// machine cycle activates it, and it goes inactive once all of OAM is
/// copied.
#[derive(Copy, Clone, Debug, PartialEq, Eq, Structural)]
pub enum DmaState {
    Inactive,
    Starting,
    Active,
}

/// What one machine cycle of the PPU did to the mode state machine.
#[derive(Copy, Clone, Debug, PartialEq, Eq, Structural)]
pub enum PpuState {
    ModeChange(PpuMode, PpuMode),
    ProcessingMode(PpuMode),
}

/// One machine cycle's render event: the state, and whether the STAT line
/// triggered an interrupt request.
#[derive(Copy, Clone, Debug, PartialEq, Eq, Structural)]
pub enum RenderCycle {
    Normal(PpuState),
    StatTrigger(PpuState),
}

/// The mathematical model of the PPU state.
#[verifier::ext_equal]
pub ghost struct PpuView {
    pub vram: Seq<u8>,
    pub oam: Seq<u8>,
    pub lcdc: u8,
    pub stat: u8,
    pub scy: u8,
    pub scx: u8,
    pub ly: u8,
    pub lyc: u8,
    pub bgp: u8,
    pub obp0: u8,
    pub obp1: u8,
    pub wy: u8,
    pub wx: u8,
    pub line_cycles: u8,
    pub dma: DmaState,
    pub dma_progress: nat,
    pub dma_offset: u8,
}

impl PpuView {
    /// VRAM and OAM have their hardware sizes, the scanline counters are in
    /// range, and DMA progress never exceeds the size of OAM.
    pub open spec fn wf(self) -> bool {
        &&& self.vram.len() == 0x2000
        &&& self.oam.len() == 0xA0
        &&& self.ly < 154
        &&& self.line_cycles < 114
        &&& self.dma_progress <= 0xA0
    }
}

/// The PPU mode at a given scanline and machine cycle within the line:
/// lines 144..153 are the vertical blank; within a visible line the first
/// 20 machine cycles are OAM search, the next 43 the pixel transfer, the
/// remaining 51 the horizontal blank.
pub open spec fn mode_of(ly: u8, line_cycles: u8) -> PpuMode {
    if ly >= 144 {
        PpuMode::VBlank
    } else if line_cycles < 20 {
        PpuMode::OamSearch
    } else if line_cycles < 63 {
        PpuMode::PixelTransfer
    } else {
        PpuMode::HBlank
    }
}

/// The two low bits of the STAT register encoding a mode.
pub open spec fn mode_bits(m: PpuMode) -> u8 {
    match m {
        PpuMode::HBlank => 0,
        PpuMode::VBlank => 1,
        PpuMode::OamSearch => 2,
        PpuMode::PixelTransfer => 3,
    }
}

/// Whether the STAT register enables an interrupt on entering this mode
/// (bit 3 HBlank, bit 4 VBlank, bit 5 OAM search).
pub open spec fn mode_interrupt_enabled(stat: u8, m: PpuMode) -> bool {
    match m {
        PpuMode::HBlank => stat & 0x08 != 0,
        PpuMode::VBlank => stat & 0x10 != 0,
        PpuMode::OamSearch => stat & 0x20 != 0,
        PpuMode::PixelTransfer => false,
    }
}

/// One machine cycle of the PPU: the DMA clock advances (Starting becomes
/// Active, Active counts one more copied byte up to 0xA0, a finished
/// transfer goes inactive), the scanline clock advances one machine cycle
/// over the 114-cycle lines of the 154-line frame, and the event reports a
/// mode change and whether the STAT line triggered.
pub open spec fn ppu_step(p: PpuView) -> (PpuView, RenderCycle) {
    let dma = match p.dma {
        DmaState::Inactive => DmaState::Inactive,
        DmaState::Starting => DmaState::Active,
        DmaState::Active => if p.dma_progress < 0xA0 {
            DmaState::Active
        } else {
            DmaState::Inactive
        },
    };
    let dma_progress: nat = match p.dma {
        DmaState::Inactive => p.dma_progress,
        DmaState::Starting => 1,
        DmaState::Active => if p.dma_progress < 0xA0 {
            p.dma_progress + 1
        } else {
            0
        },
    };
    let line_cycles: u8 = if p.line_cycles >= 113 {
        0
    } else {
        (p.line_cycles + 1) as u8
    };
    let ly: u8 = if p.line_cycles >= 113 {
        if p.ly >= 153 {
            0
        } else {
            (p.ly + 1) as u8
        }
    } else {
        p.ly
    };
    let old_mode = mode_of(p.ly, p.line_cycles);
    let new_mode = mode_of(ly, line_cycles);
    let state = if old_mode != new_mode {
        PpuState::ModeChange(old_mode, new_mode)
    } else {
        PpuState::ProcessingMode(new_mode)
    };
    let trigger = (old_mode != new_mode && mode_interrupt_enabled(p.stat, new_mode)) || (ly != p.ly
        && ly == p.lyc && p.stat & 0x40 != 0);
    let rc = if trigger {
        RenderCycle::StatTrigger(state)
    } else {
        RenderCycle::Normal(state)
    };
    (PpuView { dma, dma_progress, line_cycles, ly, ..p }, rc)
}

/// Whether the PPU answers a read of this bus address: VRAM, OAM, or one of
/// the registers 0xFF40..=0xFF4B.
pub open spec fn ppu_owns(address: u16) -> bool {
    (0x8000 <= address < 0xA000) || (0xFE00 <= address < 0xFEA0) || (0xFF40 <= address <= 0xFF4B)
}

/// The byte the PPU answers for an owned address. STAT is composed on read:
/// bit 7 reads as one, bits 6..3 as written, bit 2 is the LY=LYC
/// coincidence, bits 1..0 the current mode.
pub open spec fn ppu_spec_read(p: PpuView, address: u16) -> u8 {
    if 0x8000 <= address < 0xA000 {
        p.vram[address - 0x8000]
    } else if 0xFE00 <= address < 0xFEA0 {
        p.oam[address - 0xFE00]
    } else if address == 0xFF40 {
        p.lcdc
    } else if address == 0xFF41 {
        0x80 | (p.stat & 0x78) | (if p.ly == p.lyc {
            4u8
        } else {
            0u8
        }) | mode_bits(mode_of(p.ly, p.line_cycles))
    } else if address == 0xFF42 {
        p.scy
    } else if address == 0xFF43 {
        p.scx
    } else if address == 0xFF44 {
        p.ly
    } else if address == 0xFF45 {
        p.lyc
    } else if address == 0xFF46 {
        p.dma_offset
    } else if address == 0xFF47 {
        p.bgp
    } else if address == 0xFF48 {
        p.obp0
    } else if address == 0xFF49 {
        p.obp1
    } else if address == 0xFF4A {
        p.wy
    } else {
        p.wx
    }
}

/// The PPU after a write to an owned address. LY is read-only; a write to
/// 0xFF46 arms a DMA transfer from page `value`.
pub open spec fn ppu_spec_write(p: PpuView, address: u16, value: u8) -> PpuView {
    if 0x8000 <= address < 0xA000 {
        PpuView { vram: p.vram.update(address - 0x8000, value), ..p }
    } else if 0xFE00 <= address < 0xFEA0 {
        PpuView { oam: p.oam.update(address - 0xFE00, value), ..p }
    } else if address == 0xFF40 {
        PpuView { lcdc: value, ..p }
    } else if address == 0xFF41 {
        PpuView { stat: value, ..p }
    } else if address == 0xFF42 {
        PpuView { scy: value, ..p }
    } else if address == 0xFF43 {
        PpuView { scx: value, ..p }
    } else if address == 0xFF44 {
        p
    } else if address == 0xFF45 {
        PpuView { lyc: value, ..p }
    } else if address == 0xFF46 {
        PpuView { dma: DmaState::Starting, dma_progress: 0, dma_offset: value, ..p }
    } else if address == 0xFF47 {
        PpuView { bgp: value, ..p }
    } else if address == 0xFF48 {
        PpuView { obp0: value, ..p }
    } else if address == 0xFF49 {
        PpuView { obp1: value, ..p }
    } else if address == 0xFF4A {
        PpuView { wy: value, ..p }
    } else {
        PpuView { wx: value, ..p }
    }
}

/// The PPU register window and DMA engine state.
pub struct PPU {
    pub vram: Vec<u8>,
    pub oam: Vec<u8>,
    pub lcdc: u8,
    pub stat: u8,
    pub scy: u8,
    pub scx: u8,
    pub ly: u8,
    pub lyc: u8,
    pub bgp: u8,
    pub obp0: u8,
    pub obp1: u8,
    pub wy: u8,
    pub wx: u8,
    pub line_cycles: u8,
    pub dma: DmaState,
    pub dma_progress: usize,
    pub dma_offset: u8,
}

impl View for PPU {
    type V = PpuView;

    open spec fn view(&self) -> PpuView {
        PpuView {
            vram: self.vram@,
            oam: self.oam@,
            lcdc: self.lcdc,
            stat: self.stat,
            scy: self.scy,
            scx: self.scx,
            ly: self.ly,
            lyc: self.lyc,
            bgp: self.bgp,
            obp0: self.obp0,
            obp1: self.obp1,
            wy: self.wy,
            wx: self.wx,
            line_cycles: self.line_cycles,
            dma: self.dma,
            dma_progress: self.dma_progress as nat,
            dma_offset: self.dma_offset,
        }
    }
}

/// A vector of `n` zero bytes.
pub(crate) fn zero_bytes(n: usize) -> (r: Vec<u8>)
    ensures
        r@ =~= Seq::new(n as nat, |i: int| 0u8),
{
    let mut r: Vec<u8> = Vec::new();
    let mut i: usize = 0;
    while i < n
        invariant
            i <= n,
            r@ =~= Seq::new(i as nat, |j: int| 0u8),
        decreases n - i,
    {
        r.push(0);
        i = i + 1;
    }
    r
}

/// The power-on PPU model: zeroed VRAM, OAM and registers, DMA inactive.
pub open spec fn ppu_power_on() -> PpuView {
    PpuView {
        vram: Seq::new(0x2000, |i: int| 0u8),
        oam: Seq::new(0xA0, |i: int| 0u8),
        lcdc: 0,
        stat: 0,
        scy: 0,
        scx: 0,
        ly: 0,
        lyc: 0,
        bgp: 0,
        obp0: 0,
        obp1: 0,
        wy: 0,
        wx: 0,
        line_cycles: 0,
        dma: DmaState::Inactive,
        dma_progress: 0,
        dma_offset: 0,
    }
}

impl PPU {
    /// A fresh PPU at power-on, before the bus applies the documented reset
    /// values to the registers.
    pub fn new() -> (r: PPU)
        ensures
            r@ =~= ppu_power_on(),
            r@.wf(),
    {
        PPU {
            vram: zero_bytes(0x2000),
            oam: zero_bytes(0xA0),
            lcdc: 0,
            stat: 0,
            scy: 0,
            scx: 0,
            ly: 0,
            lyc: 0,
            bgp: 0,
            obp0: 0,
            obp1: 0,
            wy: 0,
            wx: 0,
            line_cycles: 0,
            dma: DmaState::Inactive,
            dma_progress: 0,
            dma_offset: 0,
        }
    }

    /// Reads an owned address; None for any address outside the PPU window.
    pub fn read(&self, address: u16) -> (r: Option<u8>)
        requires
            self@.wf(),
        ensures
            r == if ppu_owns(address) {
                Some(ppu_spec_read(self@, address))
            } else {
                None::<u8>
            },
    {
        if 0x8000 <= address && address < 0xA000 {
            Some(self.vram[(address - 0x8000) as usize])
        } else if 0xFE00 <= address && address < 0xFEA0 {
            Some(self.oam[(address - 0xFE00) as usize])
        } else if address == 0xFF40 {
            Some(self.lcdc)
        } else if address == 0xFF41 {
            let coincidence: u8 = if self.ly == self.lyc {
                4
            } else {
                0
            };
            Some(0x80 | (self.stat & 0x78) | coincidence | self.mode_bits_now())
        } else if address == 0xFF42 {
            Some(self.scy)
        } else if address == 0xFF43 {
            Some(self.scx)
        } else if address == 0xFF44 {
            Some(self.ly)
        } else if address == 0xFF45 {
            Some(self.lyc)
        } else if address == 0xFF46 {
            Some(self.dma_offset)
        } else if address == 0xFF47 {
            Some(self.bgp)
        } else if address == 0xFF48 {
            Some(self.obp0)
        } else if address == 0xFF49 {
            Some(self.obp1)
        } else if address == 0xFF4A {
            Some(self.wy)
        } else if address == 0xFF4B {
            Some(self.wx)
        } else {
            None
        }
    }

    /// The STAT mode bits for the current scanline position.
    fn mode_bits_now(&self) -> (r: u8)
        ensures
            r == mode_bits(mode_of(self.ly, self.line_cycles)),
    {
        if self.ly >= 144 {
            1
        } else if self.line_cycles < 20 {
            2
        } else if self.line_cycles < 63 {
            3
        } else {
            0
        }
    }

    /// Writes an owned address; true iff the PPU claimed it.
    pub fn write(&mut self, address: u16, value: u8) -> (claimed: bool)
        requires
            old(self)@.wf(),
        ensures
            claimed == ppu_owns(address),
            final(self)@ == if ppu_owns(address) {
                ppu_spec_write(old(self)@, address, value)
            } else {
                old(self)@
            },
            final(self)@.wf(),
    {
        if 0x8000 <= address && address < 0xA000 {
            self.vram[(address - 0x8000) as usize] = value;
            true
        } else if 0xFE00 <= address && address < 0xFEA0 {
            self.oam[(address - 0xFE00) as usize] = value;
            true
        } else if address == 0xFF40 {
            self.lcdc = value;
            true
        } else if address == 0xFF41 {
            self.stat = value;
            true
        } else if address == 0xFF42 {
            self.scy = value;
            true
        } else if address == 0xFF43 {
            self.scx = value;
            true
        } else if address == 0xFF44 {
            true
        } else if address == 0xFF45 {
            self.lyc = value;
            true
        } else if address == 0xFF46 {
            self.dma = DmaState::Starting;
            self.dma_progress = 0;
            self.dma_offset = value;
            true
        } else if address == 0xFF47 {
            self.bgp = value;
            true
        } else if address == 0xFF48 {
            self.obp0 = value;
            true
        } else if address == 0xFF49 {
            self.obp1 = value;
            true
        } else if address == 0xFF4A {
            self.wy = value;
            true
        } else if address == 0xFF4B {
            self.wx = value;
            true
        } else {
            false
        }
    }

    /// Advances the PPU by one machine cycle: the DMA clock and the
    /// scanline clock move, and the returned event carries any mode change
    /// and whether the STAT line triggered.
    pub fn machine_cycle(&mut self) -> (rc: RenderCycle)
        requires
            old(self)@.wf(),
        ensures
            final(self)@ == ppu_step(old(self)@).0,
            rc == ppu_step(old(self)@).1,
            final(self)@.wf(),
    {
        match self.dma {
            DmaState::Inactive => (),
            DmaState::Starting => {
                self.dma = DmaState::Active;
                self.dma_progress = 1;
            },
            DmaState::Active => {
                if self.dma_progress < 0xA0 {
                    self.dma_progress = self.dma_progress + 1;
                } else {
                    self.dma = DmaState::Inactive;
                    self.dma_progress = 0;
                }
            },
        }
        let old_ly = self.ly;
        let old_mode = self.mode_now();
        if self.line_cycles >= 113 {
            self.line_cycles = 0;
            self.ly = if self.ly >= 153 {
                0
            } else {
                self.ly + 1
            };
        } else {
            self.line_cycles = self.line_cycles + 1;
        }
        let new_mode = self.mode_now();
        let state = if old_mode != new_mode {
            PpuState::ModeChange(old_mode, new_mode)
        } else {
            PpuState::ProcessingMode(new_mode)
        };
        let mode_enabled = match new_mode {
            PpuMode::HBlank => self.stat & 0x08 != 0,
            PpuMode::VBlank => self.stat & 0x10 != 0,
            PpuMode::OamSearch => self.stat & 0x20 != 0,
            PpuMode::PixelTransfer => false,
        };
        let trigger = (old_mode != new_mode && mode_enabled) || (self.ly != old_ly
            && self.ly == self.lyc && self.stat & 0x40 != 0);
        if trigger {
            RenderCycle::StatTrigger(state)
        } else {
            RenderCycle::Normal(state)
        }
    }

    /// The PPU mode for the current scanline position.
    fn mode_now(&self) -> (r: PpuMode)
        ensures
            r == mode_of(self.ly, self.line_cycles),
    {
        if self.ly >= 144 {
            PpuMode::VBlank
        } else if self.line_cycles < 20 {
            PpuMode::OamSearch
        } else if self.line_cycles < 63 {
            PpuMode::PixelTransfer
        } else {
            PpuMode::HBlank
        }
    }
}

} // verus!
