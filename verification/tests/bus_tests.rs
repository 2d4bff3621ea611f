use dmg_core::memory_map::MemoryMap;

fn fresh(rom: Vec<u8>) -> MemoryMap {
    MemoryMap::new(&rom, &String::from("game"))
}

#[test]
fn power_on_mmio() {
    let mut mem = fresh(vec![]);
    assert_eq!(mem.read(0xFF40), 0x91);
    assert_eq!(mem.read(0xFF47), 0xFC);
    assert_eq!(mem.read(0xFF00), 0xFF);
}

#[test]
fn power_on_sound_registers() {
    let mut mem = fresh(vec![]);
    assert_eq!(mem.read(0xFF10), 0x80);
    assert_eq!(mem.read(0xFF11), 0xBF);
    assert_eq!(mem.read(0xFF12), 0xF3);
    assert_eq!(mem.read(0xFF16), 0x3F);
    assert_eq!(mem.read(0xFF26), 0xF1);
    assert_eq!(mem.read(0xFF48), 0xFF);
    assert_eq!(mem.read(0xFF49), 0xFF);
}

#[test]
fn cycle_counter_advances_once_per_access() {
    let mut mem = fresh(vec![]);
    assert_eq!(mem.cycles, 0);
    for _ in 0..10 {
        mem.read(0xC000);
    }
    for i in 0..5 {
        mem.write(0xC000 + i, 0x5A);
    }
    assert_eq!(mem.cycles, 15);
}

#[test]
fn untick_paths_do_not_advance_time() {
    let mut mem = fresh(vec![]);
    mem.write_without_cycle(0xC000, 0x12);
    let v = mem.read_without_cycle(0xC000);
    assert_eq!(v, 0x12);
    assert_eq!(mem.cycles, 0);
}

#[test]
fn rom_writes_are_dropped() {
    let mut mem = fresh(vec![0xAA, 0xBB, 0xCC]);
    assert_eq!(mem.read(0x0001), 0xBB);
    mem.write(0x0001, 0x55);
    assert_eq!(mem.read(0x0001), 0xBB);
    // Above the ROM image the flat array accepts writes.
    mem.write(0x4000, 0x55);
    assert_eq!(mem.read(0x4000), 0x55);
}

#[test]
fn flat_ram_and_vram_round_trip() {
    let mut mem = fresh(vec![]);
    mem.write(0xC123, 0x77);
    assert_eq!(mem.read(0xC123), 0x77);
    mem.write(0x8010, 0x3C);
    assert_eq!(mem.read(0x8010), 0x3C);
    mem.write(0xFE05, 0x21);
    assert_eq!(mem.read(0xFE05), 0x21);
    mem.write(0xFFFF, 0x1F);
    assert_eq!(mem.read(0xFFFF), 0x1F);
}

#[test]
fn unusable_range_reads_ff_and_absorbs_writes() {
    let mut mem = fresh(vec![]);
    assert_eq!(mem.read(0xFEA0), 0xFF);
    assert_eq!(mem.read(0xFEFF), 0xFF);
    mem.write(0xFEA0, 0x12);
    mem.write(0xFEFF, 0x34);
    assert_eq!(mem.read(0xFEA0), 0xFF);
    assert_eq!(mem.read(0xFEFF), 0xFF);
    // The bytes behind the window are out of the store's reach too.
    assert_eq!(mem.memory[0xFEA0], 0x00);
    assert_eq!(mem.memory[0xFEFF], 0x00);
    // The OAM window just below still reads and writes normally.
    mem.write(0xFE9F, 0x56);
    assert_eq!(mem.read(0xFE9F), 0x56);
}

#[test]
fn high_page_entry_points() {
    let mut mem = fresh(vec![]);
    mem.write_high(0x80, 0x5A);
    assert_eq!(mem.read_high(0x80), 0x5A);
    assert_eq!(mem.read(0xFF80), 0x5A);
}

#[test]
fn dma_copy_fills_oam() {
    let mut mem = fresh(vec![]);
    for i in 0..0xA0u16 {
        mem.write(0xC000 + i, i as u8);
    }
    mem.write(0xFF46, 0xC0);
    for _ in 0..0xA0 {
        mem.read(0x0000);
    }
    for i in 0..0xA0u16 {
        assert_eq!(mem.read(0xFE00 + i), i as u8);
    }
}

#[test]
fn dma_runs_in_band_with_reads() {
    let mut mem = fresh(vec![]);
    for i in 0..0xA0u16 {
        mem.write(0xC000 + i, 0xA0 - i as u8);
    }
    mem.write(0xFF46, 0xC0);
    // Halfway through, the first bytes have landed and the engine reports
    // its progress through the register it was armed with.
    for _ in 0..0x50 {
        mem.read(0x0000);
    }
    assert_eq!(mem.read(0xFF46), 0xC0);
    assert_eq!(mem.read(0xFE00), 0xA0);
    for _ in 0..0x60 {
        mem.read(0x0000);
    }
    assert_eq!(mem.read(0xFE9F), 0x01);
}

#[test]
fn cycle_counter_wraps_at_sixteen_bits() {
    let mut mem = fresh(vec![]);
    mem.cycles = 0xFFFF;
    mem.read(0xC000);
    assert_eq!(mem.cycles, 0);
}

#[test]
fn dma_does_not_copy_during_its_arming_cycle() {
    let mut mem = fresh(vec![]);
    for i in 0..0xA0u16 {
        mem.write(0xC000 + i, 0x33);
    }
    mem.write(0xFF46, 0xC0);
    // The write's own trailing cycle only activates the engine; the first
    // OAM slot is still untouched when the next access begins.
    assert_eq!(mem.read(0xFE00), 0x00);
    // That read's trailing cycle performs the first copy.
    assert_eq!(mem.read(0xFE00), 0x33);
}

#[test]
fn timer_overflow_raises_interrupt() {
    let mut mem = fresh(vec![]);
    mem.write(0xFF07, 0x05); // enabled, one increment every 4 machine cycles
    mem.write(0xFF05, 0xFF);
    mem.write(0xFF06, 0x42);
    mem.read(0x0000); // the fourth machine cycle overflows TIMA
    mem.write(0xFF07, 0x00); // stop the timer so TIMA holds its reload value
    let pending = mem.read(0xFF0F);
    assert_eq!(pending & 0x04, 0x04);
    assert_eq!(mem.read(0xFF05), 0x42);
}

#[test]
fn timer_registers_read_back() {
    let mut mem = fresh(vec![]);
    mem.write(0xFF06, 0x9D);
    assert_eq!(mem.read(0xFF06), 0x9D);
    mem.write(0xFF07, 0x06);
    assert_eq!(mem.read(0xFF07), 0x06);
}

#[test]
fn joypad_press_raises_interrupt_and_reads_low() {
    let mut mem = fresh(vec![]);
    mem.write(0xFF00, 0x20); // select the direction keys (bit 4 low)
    mem.joypad.set_pressed(0x01); // right
    mem.read(0x0000); // one machine cycle latches the edge
    let pending = mem.read(0xFF0F);
    assert_eq!(pending & 0x10, 0x10);
    assert_eq!(mem.read(0xFF00), 0xEE);
}

#[test]
fn vblank_interrupt_after_144_lines() {
    let mut mem = fresh(vec![]);
    for _ in 0..144 * 114 {
        mem.cycle();
    }
    let pending = mem.read(0xFF0F);
    assert_eq!(pending & 0x01, 0x01);
    assert_eq!(mem.read(0xFF44), 144);
}

#[test]
fn stat_mode_bits_compose() {
    let mut mem = fresh(vec![]);
    // A fresh frame starts in OAM search (mode 2); bit 7 reads as one.
    let stat = mem.read(0xFF41);
    assert_eq!(stat & 0x03, 0x02);
    assert_eq!(stat & 0x80, 0x80);
}

#[test]
fn interrupt_enable_round_trip() {
    let mut mem = fresh(vec![]);
    mem.write(0xFFFF, 0x15);
    assert_eq!(mem.read(0xFFFF), 0x15);
    // IF reads with its unimplemented high bits set.
    let pending = mem.read(0xFF0F);
    assert_eq!(pending & 0xE0, 0xE0);
}
