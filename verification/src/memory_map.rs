//! The memory-mapped bus: a 64 KiB backing array shadowed by the PPU,
//! interrupt-controller, timer and joypad windows. Every ticking access
//! advances the world by one machine cycle, in which the DMA engine copies
//! into OAM over the no-tick read path, the PPU, timer and joypad step, and
//! their events are unioned into the pending-interrupts register.

use vstd::prelude::*;

use crate::interrupt::{
    ids_mask, interrupt_owns, interrupt_spec_read, interrupt_spec_write, InterruptHandler,
    InterruptId,
};
use crate::joypad::{joypad_owns, joypad_spec_read, joypad_spec_write, joypad_step, Joypad};
use crate::ppu::{
    ppu_owns, ppu_power_on, ppu_spec_read, ppu_spec_write, ppu_step, zero_bytes, DmaState,
    PpuMode, PpuState, PpuView, RenderCycle, PPU,
};
use crate::timer::{timer_owns, timer_spec_read, timer_spec_write, timer_step, Timer};

verus! {

/// The categories of hardware OAM corruption (an INC/DEC, read, write or
/// read-write touching the OAM range during OAM search). The category is
/// recognized here, but no corruption is emulated, not for DMA-initiated
/// reads either.
#[derive(Copy, Clone, Debug, PartialEq, Eq, Structural)]
pub enum OamCorruptionCause {
    IncDec,
    Read,
    Write,
    ReadWrite,
}

/// The mathematical model of the whole bus.
#[verifier::ext_equal]
pub ghost struct MemView {
    pub memory: Seq<u8>,
    pub interrupt_handler: InterruptHandler,
    pub ppu: PpuView,
    pub timer: Timer,
    pub joypad: Joypad,
    pub rom_size: nat,
    pub cycles: nat,
    pub dma_progress: nat,
}

impl MemView {
    /// The backing array covers the full 16-bit space, the PPU state is
    /// well formed, the ROM region does not exceed its window, the cycle
    /// counter is 16 bits, and the bus's DMA progress never exceeds OAM.
    pub open spec fn wf(self) -> bool {
        &&& self.memory.len() == 0x10000
        &&& self.ppu.wf()
        &&& self.rom_size <= 0x8000
        &&& self.cycles < 0x10000
        &&& self.dma_progress <= 0xA0
    }
}

/// Whether this address lies in the unusable range 0xFEA0..=0xFEFF: no
/// subsystem owns it, it reads 0xFF and it silently absorbs writes.
pub open spec fn unusable(address: u16) -> bool {
    0xFEA0 <= address <= 0xFEFF
}

/// The byte a read of `address` returns: the owning subsystem answers
/// (tried in the order PPU, interrupt controller, timer, joypad), the
/// unusable range reads 0xFF, and otherwise the flat backing array answers.
pub open spec fn spec_read(m: MemView, address: u16) -> u8 {
    if ppu_owns(address) {
        ppu_spec_read(m.ppu, address)
    } else if interrupt_owns(address) {
        interrupt_spec_read(m.interrupt_handler, address)
    } else if timer_owns(address) {
        timer_spec_read(m.timer, address)
    } else if joypad_owns(address) {
        joypad_spec_read(m.joypad)
    } else if unusable(address) {
        0xFF
    } else {
        m.memory[address as int]
    }
}

/// The bus after a write of `value` to `address`: the owning subsystem
/// claims it, the unusable range absorbs it, and otherwise it lands in the
/// flat backing array — except below `rom_size`, where it is silently
/// dropped.
pub open spec fn spec_write(m: MemView, address: u16, value: u8) -> MemView {
    if ppu_owns(address) {
        MemView { ppu: ppu_spec_write(m.ppu, address, value), ..m }
    } else if timer_owns(address) {
        MemView { timer: timer_spec_write(m.timer, address, value), ..m }
    } else if interrupt_owns(address) {
        MemView {
            interrupt_handler: interrupt_spec_write(m.interrupt_handler, address, value),
            ..m
        }
    } else if joypad_owns(address) {
        MemView { joypad: joypad_spec_write(m.joypad, value), ..m }
    } else if unusable(address) {
        m
    } else if address as nat >= m.rom_size {
        MemView { memory: m.memory.update(address as int, value), ..m }
    } else {
        m
    }
}

/// The source address of DMA byte `i`: the armed page times 0x100 plus `i`.
pub open spec fn dma_source(m: MemView, i: int) -> u16 {
    (m.ppu.dma_offset * 0x100 + i) as u16
}

/// The bus after the DMA engine has copied bytes `b..p` into OAM, one at a
/// time over the no-tick read path, advancing the bus's progress counter.
pub open spec fn spec_dma_copy(m: MemView, b: nat, p: nat) -> MemView
    decreases p - b,
{
    if b >= p {
        m
    } else {
        let byte = spec_read(m, dma_source(m, b as int));
        let m2 = MemView {
            ppu: PpuView { oam: m.ppu.oam.update(b as int, byte), ..m.ppu },
            dma_progress: b + 1,
            ..m
        };
        spec_dma_copy(m2, b + 1, p)
    }
}

/// The DMA step of one machine cycle: while the engine is active the bus
/// catches its own progress counter up to the position the PPU reports,
/// copying each byte; a counter that reached the size of OAM is reset for
/// the next transfer. An engine that is inactive or only starting copies
/// nothing yet.
pub open spec fn spec_dma_transfer(m: MemView) -> MemView {
    if m.ppu.dma is Active {
        let m1 = spec_dma_copy(m, m.dma_progress, m.ppu.dma_progress);
        if m1.dma_progress == 0xA0 {
            MemView { dma_progress: 0, ..m1 }
        } else {
            m1
        }
    } else {
        m
    }
}

/// The interrupts one machine cycle raises: VBlank on a transition into
/// VBlank mode, STAT when the STAT line triggered, Timer on a TIMA
/// overflow, Joypad on a newly pressed button.
pub open spec fn interrupts_of(rc: RenderCycle, overflow: Option<u8>, newly: bool) -> Seq<
    InterruptId,
> {
    let s0 = match rc {
        RenderCycle::StatTrigger(PpuState::ModeChange(_, PpuMode::VBlank)) => seq![
            InterruptId::VBlankInt,
            InterruptId::StatInt,
        ],
        RenderCycle::Normal(PpuState::ModeChange(_, PpuMode::VBlank)) => seq![
            InterruptId::VBlankInt,
        ],
        RenderCycle::StatTrigger(_) => seq![InterruptId::StatInt],
        _ => Seq::empty(),
    };
    let s1 = if overflow is Some {
        s0.push(InterruptId::TimerInt)
    } else {
        s0
    };
    if newly {
        s1.push(InterruptId::JoypadInt)
    } else {
        s1
    }
}

/// The subsystem step of one machine cycle: PPU, timer and joypad advance,
/// and the interrupts they raised are unioned into IF.
pub open spec fn spec_tick(m: MemView) -> MemView {
    let pr = ppu_step(m.ppu);
    let tr = timer_step(m.timer);
    let jr = joypad_step(m.joypad);
    let mask = ids_mask(interrupts_of(pr.1, tr.1, jr.1));
    MemView {
        ppu: pr.0,
        timer: tr.0,
        joypad: jr.0,
        interrupt_handler: InterruptHandler {
            flag: m.interrupt_handler.flag | mask,
            enable: m.interrupt_handler.enable,
        },
        ..m
    }
}

/// One machine cycle of the world: the free-running counter advances by
/// one (mod 2^16), the DMA engine copies, the subsystems step and their
/// interrupts are collected.
pub open spec fn spec_cycle(m: MemView) -> MemView {
    spec_tick(spec_dma_transfer(MemView { cycles: ((m.cycles + 1) % 0x10000) as nat, ..m }))
}

/// The bus after `n` machine cycles.
pub open spec fn iter_cycle(m: MemView, n: nat) -> MemView
    decreases n,
{
    if n == 0 {
        m
    } else {
        spec_cycle(iter_cycle(m, (n - 1) as nat))
    }
}

/// The DMA copy loop touches only OAM and the bus's progress counter, and
/// it copies exactly the bytes `b..p`: when the source page stays below the
/// OAM and I/O windows, OAM slot `i` afterwards holds the byte the bus read
/// at `page * 0x100 + i`, and every slot below `b` is untouched.
pub proof fn lemma_dma_copy_frame(m: MemView, b: nat, p: nat)
    requires
        b <= p <= 0xA0,
        m.ppu.oam.len() == 0xA0,
        m.dma_progress == b,
    ensures
        ({
            let r = spec_dma_copy(m, b, p);
            &&& r == (MemView {
                ppu: (PpuView { oam: r.ppu.oam, ..m.ppu }),
                dma_progress: p,
                ..m
            })
            &&& r.ppu.oam.len() == 0xA0
            &&& forall|i: int| 0 <= i < b ==> r.ppu.oam[i] == m.ppu.oam[i]
            &&& m.ppu.dma_offset <= 0xDF ==> forall|i: int|
                b <= i < p ==> r.ppu.oam[i] == spec_read(m, dma_source(m, i))
        }),
    decreases p - b,
{
    if b < p {
        let byte = spec_read(m, dma_source(m, b as int));
        let m2 = MemView {
            ppu: PpuView { oam: m.ppu.oam.update(b as int, byte), ..m.ppu },
            dma_progress: b + 1,
            ..m
        };
        lemma_dma_copy_frame(m2, b + 1, p);
        if m.ppu.dma_offset <= 0xDF {
            assert forall|i: int| b + 1 <= i < p implies spec_read(m2, dma_source(m2, i))
                == spec_read(m, dma_source(m, i)) by {
                assert(m.ppu.dma_offset * 0x100 + i <= 0xDF9F);
            }
        }
    }
}

/// The DMA step of one machine cycle changes only OAM and the bus's
/// progress counter; flat memory, VRAM, every register and the cycle
/// counter stay as they were.
pub proof fn lemma_dma_transfer_frame(m: MemView)
    requires
        m.wf(),
    ensures
        ({
            let r = spec_dma_transfer(m);
            &&& r == (MemView {
                ppu: (PpuView { oam: r.ppu.oam, ..m.ppu }),
                dma_progress: r.dma_progress,
                ..m
            })
            &&& r.ppu.oam.len() == 0xA0
            &&& r.dma_progress <= 0xA0
        }),
{
    if m.ppu.dma is Active {
        if m.dma_progress <= m.ppu.dma_progress {
            lemma_dma_copy_frame(m, m.dma_progress, m.ppu.dma_progress);
        }
    }
}

/// The last DMA step of a transfer, as `dma_transfer` performs it on any
/// bus in this state: once the PPU reports all 0xA0 positions elapsed, and
/// the slots the bus already copied hold their source bytes, the step
/// finishes the copy — OAM equals the source byte-for-byte, read over the
/// no-tick path at `page * 0x100 + i` — and the bus's progress counter is
/// reset for the next transfer.
pub proof fn lemma_dma_transfer_completes(m: MemView)
    requires
        m.wf(),
        m.ppu.dma is Active,
        m.ppu.dma_progress == 0xA0,
        m.ppu.dma_offset <= 0xDF,
        forall|i: int| 0 <= i < m.dma_progress ==> m.ppu.oam[i] == spec_read(m, dma_source(m, i)),
    ensures
        spec_dma_transfer(m).dma_progress == 0,
        spec_dma_transfer(m).ppu.oam.len() == 0xA0,
        forall|i: int|
            0 <= i < 0xA0 ==> spec_dma_transfer(m).ppu.oam[i] == spec_read(m, dma_source(m, i)),
{
    lemma_dma_copy_frame(m, m.dma_progress, 0xA0);
}

/// The memory-mapped bus.
pub struct MemoryMap {
    pub memory: Vec<u8>,
    pub interrupt_handler: InterruptHandler,
    pub ppu: PPU,
    pub timer: Timer,
    pub joypad: Joypad,
    pub rom_size: usize,
    pub rom_name: String,
    pub cycles: u16,
    pub dma_progress: usize,
}

impl View for MemoryMap {
    type V = MemView;

    open spec fn view(&self) -> MemView {
        MemView {
            memory: self.memory@,
            interrupt_handler: self.interrupt_handler,
            ppu: self.ppu@,
            timer: self.timer,
            joypad: self.joypad,
            rom_size: self.rom_size as nat,
            cycles: self.cycles as nat,
            dma_progress: self.dma_progress as nat,
        }
    }
}

/// The flat backing array at power-on: the ROM image, the documented sound
/// register reset values, zero everywhere else.
pub open spec fn power_on_byte(rom: Seq<u8>, i: int) -> u8 {
    if i < rom.len() {
        rom[i]
    } else if i == 0xFF10 {
        0x80
    } else if i == 0xFF11 {
        0xBF
    } else if i == 0xFF12 {
        0xF3
    } else if i == 0xFF14 {
        0xBF
    } else if i == 0xFF16 {
        0x3F
    } else if i == 0xFF19 {
        0xBF
    } else if i == 0xFF1A {
        0x7F
    } else if i == 0xFF1B {
        0xFF
    } else if i == 0xFF1C {
        0x9F
    } else if i == 0xFF1E {
        0xFF
    } else if i == 0xFF20 {
        0xFF
    } else if i == 0xFF23 {
        0xBF
    } else if i == 0xFF24 {
        0x77
    } else if i == 0xFF25 {
        0xF3
    } else if i == 0xFF26 {
        0xF1
    } else {
        0
    }
}

/// The whole bus at power-on, after the documented reset values have been
/// applied over the untick write path: LCDC 0x91, BGP 0xFC, OBP0/OBP1 0xFF,
/// TIMA/TMA/TAC 0, P1 selecting no matrix line, no interrupt pending, the
/// cycle counter and the DMA engine at rest.
pub open spec fn power_on(rom: Seq<u8>) -> MemView {
    MemView {
        memory: Seq::new(0x10000, |i: int| power_on_byte(rom, i)),
        interrupt_handler: InterruptHandler { flag: 0, enable: 0 },
        ppu: PpuView { lcdc: 0x91, bgp: 0xFC, obp0: 0xFF, obp1: 0xFF, ..ppu_power_on() },
        timer: Timer { divider: 0, tima: 0, tma: 0, tac: 0, div_counter: 0, tima_counter: 0 },
        joypad: Joypad { select: 0x30, pressed: 0, prev: 0 },
        rom_size: rom.len(),
        cycles: 0,
        dma_progress: 0,
    }
}

impl MemoryMap {
    /// A fresh bus over the given flat ROM image, with every subsystem and
    /// I/O register at its documented power-on value.
    pub fn new(rom: &Vec<u8>, rom_name: &String) -> (r: MemoryMap)
        requires
            rom@.len() <= 0x8000,
        ensures
            r@ == power_on(rom@),
            r@.wf(),
    {
        let ppu = PPU::new();
        let joypad = Joypad::new();
        let interrupt_handler = InterruptHandler::new();
        let timer = Timer::new();
        let rom_size = rom.len();
        let rom_name = rom_name.clone();
        let memory = zero_bytes(0x10000);
        let mem = MemoryMap {
            joypad,
            ppu,
            interrupt_handler,
            timer,
            memory,
            rom_name,
            rom_size,
            cycles: 0,
            dma_progress: 0,
        };
        proof {
            assert(mem@ =~= pre_init(rom@));
        }
        MemoryMap::init_memory(mem, rom)
    }

    /// Copies the ROM image into the backing array and applies the
    /// documented power-on values to the I/O registers, over the untick
    /// write path.
    #[verifier::rlimit(50)]
    fn init_memory(mem: MemoryMap, rom: &Vec<u8>) -> (r: MemoryMap)
        requires
            rom@.len() <= 0x8000,
            mem@ == pre_init(rom@),
        ensures
            r@ == power_on(rom@),
            r@.wf(),
    {
        let mut mem = mem;
        let mut index: usize = 0;
        while index < rom.len()
            invariant
                index <= rom@.len() <= 0x8000,
                mem@.memory.len() == 0x10000,
                forall|j: int| 0 <= j < index ==> mem@.memory[j] == rom@[j],
                forall|j: int| index <= j < 0x10000 ==> mem@.memory[j] == 0u8,
                mem@ == (MemView { memory: mem@.memory, ..pre_init(rom@) }),
            decreases rom@.len() - index,
        {
            mem.memory[index] = rom[index];
            index = index + 1;
        }
        proof {
            assert(mem@.memory =~= rom_loaded(rom@));
            assert(mem@ =~= (MemView { memory: rom_loaded(rom@), ..pre_init(rom@) }));
        }
        mem.write_without_cycle(0xFF05, 0);
        mem.write_without_cycle(0xFF06, 0);
        mem.write_without_cycle(0xFF07, 0);
        mem.write_without_cycle(0xFF10, 0x80);
        mem.write_without_cycle(0xFF11, 0xBF);
        mem.write_without_cycle(0xFF12, 0xF3);
        mem.write_without_cycle(0xFF14, 0xBF);
        mem.write_without_cycle(0xFF16, 0x3F);
        mem.write_without_cycle(0xFF17, 0);
        mem.write_without_cycle(0xFF19, 0xBF);
        mem.write_without_cycle(0xFF1A, 0x7F);
        mem.write_without_cycle(0xFF1B, 0xFF);
        mem.write_without_cycle(0xFF1C, 0x9F);
        mem.write_without_cycle(0xFF1E, 0xFF);
        mem.write_without_cycle(0xFF20, 0xFF);
        mem.write_without_cycle(0xFF21, 0);
        mem.write_without_cycle(0xFF22, 0);
        mem.write_without_cycle(0xFF23, 0xBF);
        mem.write_without_cycle(0xFF24, 0x77);
        mem.write_without_cycle(0xFF25, 0xF3);
        mem.write_without_cycle(0xFF26, 0xF1);
        mem.write_without_cycle(0xFF40, 0x91);
        mem.write_without_cycle(0xFF42, 0);
        mem.write_without_cycle(0xFF43, 0);
        mem.write_without_cycle(0xFF45, 0);
        mem.write_without_cycle(0xFF47, 0xFC);
        mem.write_without_cycle(0xFF48, 0xFF);
        mem.write_without_cycle(0xFF49, 0xFF);
        mem.write_without_cycle(0xFF4A, 0);
        mem.write_without_cycle(0xFF4B, 0);
        mem.write_without_cycle(0xFF00, 0xFF);
        proof {
            assert(0xFFu8 & 0x30 == 0x30) by (bit_vector);
            assert(mem@.memory =~= power_on(rom@).memory);
            assert(mem@.ppu =~= power_on(rom@).ppu);
            assert(mem@ =~= power_on(rom@));
        }
        mem
    }

    /// Reads one byte without advancing time. Dispatch tries the PPU, the
    /// interrupt controller, the timer and the joypad in that order; the
    /// unusable range reads 0xFF, and any other unclaimed address falls
    /// through to the flat backing array.
    pub fn read_without_cycle(&self, address: u16) -> (r: u8)
        requires
            self@.wf(),
        ensures
            r == spec_read(self@, address),
    {
        match self.ppu.read(address) {
            Some(v) => v,
            None => match self.interrupt_handler.read(address) {
                Some(v) => v,
                None => match self.timer.read(address) {
                    Some(v) => v,
                    None => match self.joypad.read(address) {
                        Some(v) => v,
                        None => if 0xFEA0 <= address && address <= 0xFEFF {
                            0xFF
                        } else {
                            self.memory[address as usize]
                        },
                    },
                },
            },
        }
    }

    /// Writes one byte without advancing time. A subsystem may claim the
    /// address and suppress the flat-array store; the unusable range absorbs
    /// the write, and an unclaimed write below `rom_size` is silently
    /// dropped.
    pub fn write_without_cycle(&mut self, address: u16, value: u8)
        requires
            old(self)@.wf(),
        ensures
            final(self)@ == spec_write(old(self)@, address, value),
            final(self)@.wf(),
    {
        let claimed = self.ppu.write(address, value);
        if !claimed {
            let claimed = self.timer.write(address, value);
            if !claimed {
                let claimed = self.interrupt_handler.write(address, value);
                if !claimed {
                    let claimed = self.joypad.write(address, value);
                    let absorbed = 0xFEA0 <= address && address <= 0xFEFF;
                    if !claimed && !absorbed && address as usize >= self.rom_size {
                        self.memory[address as usize] = value;
                    }
                }
            }
        }
    }

    /// Reads one byte and advances the world by one machine cycle after the
    /// data transfer.
    pub fn read(&mut self, address: u16) -> (r: u8)
        requires
            old(self)@.wf(),
        ensures
            r == spec_read(old(self)@, address),
            final(self)@ == spec_cycle(old(self)@),
            final(self)@.wf(),
            final(self)@.cycles == (old(self)@.cycles + 1) % 0x10000,
    {
        let value = self.read_without_cycle(address);
        self.cycle();
        value
    }

    /// Writes one byte and advances the world by one machine cycle after
    /// the data transfer.
    pub fn write(&mut self, address: u16, value: u8)
        requires
            old(self)@.wf(),
        ensures
            final(self)@ == spec_cycle(spec_write(old(self)@, address, value)),
            final(self)@.wf(),
            final(self)@.cycles == (old(self)@.cycles + 1) % 0x10000,
    {
        self.write_without_cycle(address, value);
        self.cycle();
    }

    /// Reads from the high page: the 8-bit offset is added to 0xFF00 before
    /// dispatch.
    pub fn read_high(&mut self, offset: u8) -> (r: u8)
        requires
            old(self)@.wf(),
        ensures
            r == spec_read(old(self)@, (0xFF00 + offset) as u16),
            final(self)@ == spec_cycle(old(self)@),
            final(self)@.wf(),
    {
        self.read(0xFF00 + offset as u16)
    }

    /// Writes to the high page: the 8-bit offset is added to 0xFF00 before
    /// dispatch.
    pub fn write_high(&mut self, offset: u8, value: u8)
        requires
            old(self)@.wf(),
        ensures
            final(self)@ == spec_cycle(spec_write(old(self)@, (0xFF00 + offset) as u16, value)),
            final(self)@.wf(),
    {
        self.write(0xFF00 + offset as u16, value)
    }

    /// Advances the world by one machine cycle: the free-running counter,
    /// then DMA progress, then the PPU, timer and joypad with their
    /// interrupt requests.
    pub fn cycle(&mut self)
        requires
            old(self)@.wf(),
        ensures
            final(self)@ == spec_cycle(old(self)@),
            final(self)@.wf(),
            final(self)@.cycles == (old(self)@.cycles + 1) % 0x10000,
    {
        self.cycles = if self.cycles == 0xFFFF {
            0
        } else {
            self.cycles + 1
        };
        proof {
            lemma_dma_transfer_frame(self@);
        }
        self.dma_transfer();
        self.machine_cycle();
    }

    /// The DMA step: while the engine is active, catch the bus's progress
    /// counter up to the position the PPU reports, copying each byte from
    /// the armed page into OAM over the no-tick read path. A transfer armed
    /// during the just-completed machine cycle does not copy yet.
    fn dma_transfer(&mut self)
        requires
            old(self)@.wf(),
        ensures
            final(self)@ == spec_dma_transfer(old(self)@),
            final(self)@.wf(),
    {
        match self.ppu.dma {
            DmaState::Inactive => {
                return ;
            },
            DmaState::Starting => {
                return ;
            },
            DmaState::Active => {},
        }
        while self.dma_progress < self.ppu.dma_progress
            invariant
                self@.wf(),
                old(self)@.wf(),
                old(self)@.ppu.dma is Active,
                self.ppu.dma == DmaState::Active,
                spec_dma_copy(self@, self@.dma_progress, self@.ppu.dma_progress) == spec_dma_copy(
                    old(self)@,
                    old(self)@.dma_progress,
                    old(self)@.ppu.dma_progress,
                ),
                self@.ppu.dma_progress == old(self)@.ppu.dma_progress,
            decreases self@.ppu.dma_progress - self@.dma_progress,
        {
            let ghost pre = self@;
            let source = (self.ppu.dma_offset as usize) * 0x100 + self.dma_progress;
            let byte = self.read_without_cycle(source as u16);
            let progress = self.dma_progress;
            self.ppu.oam[progress] = byte;
            self.dma_progress = progress + 1;
            proof {
                assert(source as u16 == dma_source(pre, pre.dma_progress as int));
                assert(self@ == (MemView {
                    ppu: PpuView { oam: pre.ppu.oam.update(pre.dma_progress as int, byte), ..pre.ppu },
                    dma_progress: pre.dma_progress + 1,
                    ..pre
                }));
            }
        }
        if self.dma_progress == self.ppu.oam.len() {
            self.dma_progress = 0;
        }
    }

    /// The subsystem step of one machine cycle: the PPU, timer and joypad
    /// advance, and every interrupt they raised is set in IF.
    fn machine_cycle(&mut self)
        requires
            old(self)@.wf(),
        ensures
            final(self)@ == spec_tick(old(self)@),
            final(self)@.wf(),
    {
        let rc = self.ppu.machine_cycle();
        let overflow = self.timer.machine_cycle();
        let newly = self.joypad.machine_cycle();
        let mut interrupts: Vec<InterruptId> = Vec::new();
        match rc {
            RenderCycle::StatTrigger(PpuState::ModeChange(_, PpuMode::VBlank)) => {
                interrupts.push(InterruptId::VBlankInt);
                interrupts.push(InterruptId::StatInt);
            },
            RenderCycle::Normal(PpuState::ModeChange(_, PpuMode::VBlank)) => {
                interrupts.push(InterruptId::VBlankInt);
            },
            RenderCycle::StatTrigger(_) => {
                interrupts.push(InterruptId::StatInt);
            },
            _ => {},
        }
        if overflow.is_some() {
            interrupts.push(InterruptId::TimerInt);
        }
        if newly {
            interrupts.push(InterruptId::JoypadInt);
        }
        proof {
            assert(interrupts@ =~= interrupts_of(rc, overflow, newly));
        }
        self.interrupt_handler.set(interrupts, true);
    }
}

/// One spec-level machine cycle preserves well-formedness, advances the
/// free-running counter by exactly one (mod 2^16), and leaves flat memory,
/// VRAM, the armed DMA page and the ROM window unchanged.
pub proof fn lemma_cycle_frame(m: MemView)
    requires
        m.wf(),
    ensures
        ({
            let r = spec_cycle(m);
            &&& r.wf()
            &&& r.cycles == (m.cycles + 1) % 0x10000
            &&& r.memory == m.memory
            &&& r.ppu.vram == m.ppu.vram
            &&& r.ppu.dma_offset == m.ppu.dma_offset
            &&& r.rom_size == m.rom_size
        }),
{
    let m1 = MemView { cycles: ((m.cycles + 1) % 0x10000) as nat, ..m };
    lemma_dma_transfer_frame(m1);
}

/// Bus tick accounting: `n` machine cycles advance the free-running
/// counter by exactly `n`, modulo 2^16 — and every ticking `read` or
/// `write` performs exactly one machine cycle.
pub proof fn lemma_cycle_counter(m: MemView, n: nat)
    requires
        m.wf(),
    ensures
        iter_cycle(m, n).wf(),
        iter_cycle(m, n).cycles == (m.cycles + n) % 0x10000,
    decreases n,
{
    if n == 0 {
        assert(m.cycles % 0x10000 == m.cycles);
    } else {
        lemma_cycle_counter(m, (n - 1) as nat);
        lemma_cycle_frame(iter_cycle(m, (n - 1) as nat));
        vstd::arithmetic::div_mod::lemma_add_mod_noop(m.cycles + n - 1, 1, 0x10000);
    }
}

/// While a transfer is active, each machine cycle copies one more byte:
/// after `k` cycles from the state in which the engine has just become
/// active, the PPU reports `k + 1` elapsed positions, the bus has copied
/// the first `k` source bytes into OAM, and the source region is untouched.
proof fn lemma_dma_progress_invariant(m: MemView, k: nat)
    requires
        m.wf(),
        m.ppu.dma is Active,
        m.ppu.dma_progress == 1,
        m.dma_progress == 0,
        m.ppu.dma_offset <= 0xDF,
        k <= 0x9F,
    ensures
        ({
            let v = iter_cycle(m, k);
            &&& v.wf()
            &&& v.ppu.dma is Active
            &&& v.ppu.dma_progress == k + 1
            &&& v.dma_progress == k
            &&& v.memory == m.memory
            &&& v.ppu.vram == m.ppu.vram
            &&& v.ppu.dma_offset == m.ppu.dma_offset
            &&& v.ppu.oam.len() == 0xA0
            &&& forall|i: int| 0 <= i < k ==> v.ppu.oam[i] == spec_read(m, dma_source(m, i))
        }),
    decreases k,
{
    if k > 0 {
        lemma_dma_progress_invariant(m, (k - 1) as nat);
        let v0 = iter_cycle(m, (k - 1) as nat);
        let m1 = MemView { cycles: ((v0.cycles + 1) % 0x10000) as nat, ..v0 };
        lemma_dma_copy_frame(m1, (k - 1) as nat, k);
        assert(m.ppu.dma_offset * 0x100 + (k - 1) <= 0xDF9F);
        assert(spec_read(m1, dma_source(m1, k as int - 1)) == spec_read(
            m,
            dma_source(m, k as int - 1),
        ));
    }
}

/// DMA completion: from the state in which a transfer has just become
/// active (the bus write to 0xFF46 armed it and its own trailing machine
/// cycle activated the engine), 0xA0 further machine cycles copy all of
/// OAM from the armed page, byte for byte, and the engine goes inactive.
/// The armed page must lie below the OAM and I/O windows, as every real
/// transfer's does.
pub proof fn lemma_dma_completion(m: MemView)
    requires
        m.wf(),
        m.ppu.dma is Active,
        m.ppu.dma_progress == 1,
        m.dma_progress == 0,
        m.ppu.dma_offset <= 0xDF,
    ensures
        iter_cycle(m, 0xA0).ppu.dma is Inactive,
        iter_cycle(m, 0xA0).ppu.oam.len() == 0xA0,
        forall|i: int|
            0 <= i < 0xA0 ==> iter_cycle(m, 0xA0).ppu.oam[i] == spec_read(m, dma_source(m, i)),
{
    lemma_dma_progress_invariant(m, 0x9F);
    let v = iter_cycle(m, 0x9F);
    let m1 = MemView { cycles: ((v.cycles + 1) % 0x10000) as nat, ..v };
    lemma_dma_copy_frame(m1, 0x9F, 0xA0);
    assert(m.ppu.dma_offset * 0x100 + 0x9F <= 0xDF9F);
    assert(spec_read(m1, dma_source(m1, 0x9F)) == spec_read(m, dma_source(m, 0x9F)));
    assert(iter_cycle(m, 0xA0) == spec_cycle(v));
}

/// DMA end to end: writing page `page` to 0xFF46 arms the engine and the
/// write's own trailing machine cycle activates it; the 0xA0 machine cycles
/// after that copy OAM completely, byte for byte, from the bytes the bus
/// held at `page * 0x100 .. page * 0x100 + 0xA0` when the transfer was
/// initiated, and the engine goes inactive.
pub proof fn lemma_dma_write_then_full_transfer(m: MemView, page: u8)
    requires
        m.wf(),
        m.dma_progress == 0,
        page <= 0xDF,
    ensures
        ({
            let armed = spec_cycle(spec_write(m, 0xFF46, page));
            let done = iter_cycle(armed, 0xA0);
            &&& done.ppu.dma is Inactive
            &&& done.ppu.oam.len() == 0xA0
            &&& forall|i: int|
                0 <= i < 0xA0 ==> done.ppu.oam[i] == spec_read(m, (page * 0x100 + i) as u16)
        }),
{
    let w = spec_write(m, 0xFF46, page);
    let armed = spec_cycle(w);
    lemma_cycle_frame(w);
    lemma_dma_completion(armed);
    assert forall|i: int| 0 <= i < 0xA0 implies spec_read(armed, dma_source(armed, i))
        == spec_read(m, (page * 0x100 + i) as u16) by {
        assert(page * 0x100 + i <= 0xDF9F);
    }
}

/// The bus as constructed at power-on, before the ROM image is copied in
/// and the documented reset values are applied.
pub open spec fn pre_init(rom: Seq<u8>) -> MemView {
    MemView {
        memory: Seq::new(0x10000, |i: int| 0u8),
        interrupt_handler: InterruptHandler { flag: 0, enable: 0 },
        ppu: ppu_power_on(),
        timer: Timer { divider: 0, tima: 0, tma: 0, tac: 0, div_counter: 0, tima_counter: 0 },
        joypad: Joypad { select: 0x30, pressed: 0, prev: 0 },
        rom_size: rom.len(),
        cycles: 0,
        dma_progress: 0,
    }
}

/// The backing array with the ROM image copied in and everything else
/// still zero.
pub open spec fn rom_loaded(rom: Seq<u8>) -> Seq<u8> {
    Seq::new(
        0x10000,
        |i: int|
            if i < rom.len() {
                rom[i]
            } else {
                0u8
            },
    )
}

} // verus!
