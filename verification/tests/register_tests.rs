use dmg_core::memory_map::MemoryMap;
use dmg_core::register::{ByteRegister, ConditionCode, FlagRegister, Register, RegisterId, WordRegister};

#[test]
fn reset_state() {
    let r = Register::new();
    assert_eq!(r.af().value(), 0x01B0);
    assert_eq!(r.bc().value(), 0x0013);
    assert_eq!(r.de().value(), 0x00D8);
    assert_eq!(r.hl().value(), 0x014D);
    assert_eq!(r.sp.value(), 0xFFFE);
    assert_eq!(r.pc.value(), 0x0100);
}

#[test]
fn byte_write_then_read() {
    let mut r = Register::new();
    let ids = [
        RegisterId::A,
        RegisterId::B,
        RegisterId::C,
        RegisterId::D,
        RegisterId::E,
        RegisterId::H,
        RegisterId::L,
    ];
    let mut v: u8 = 0x11;
    for id in ids {
        r.write_byte(id, v);
        assert_eq!(r.read_byte(id), v);
        v = v.wrapping_add(0x22);
    }
}

#[test]
fn flag_pack_round_trip() {
    let mut f = FlagRegister { z: true, n: false, h: true, c: true };
    assert_eq!(f.value(), 0xB0);
    f.set(0xB0);
    assert_eq!((f.z, f.n, f.h, f.c), (true, false, true, true));
    f.set(0xFF);
    assert_eq!((f.z, f.n, f.h, f.c), (true, true, true, true));
    assert_eq!(f.value(), 0xF0);
    f.set(0x0F);
    assert_eq!((f.z, f.n, f.h, f.c), (false, false, false, false));
    assert_eq!(f.value(), 0x00);
}

#[test]
fn flag_nibble_zeroing() {
    let mut r = Register::new();
    let af = r.af();
    r.set_word_register(0x00FF, af);
    assert_eq!(r.af().value(), 0x00F0);
}

#[test]
fn pair_write_then_read() {
    let mut r = Register::new();
    let bc = r.bc();
    r.set_word_register(0x1234, bc);
    assert_eq!(r.bc().value(), 0x1234);
    assert_eq!(r.read_byte(RegisterId::B), 0x12);
    assert_eq!(r.read_byte(RegisterId::C), 0x34);
    let de = r.de();
    r.set_word_register(0xBEEF, de);
    assert_eq!(r.de().value(), 0xBEEF);
    let hl = r.hl();
    r.set_word_register(0x8001, hl);
    assert_eq!(r.hl().value(), 0x8001);
}

#[test]
fn pair_low_half_lands_first() {
    let mut r = Register::new();
    let hl = r.hl();
    let old_h = r.read_byte(RegisterId::H);
    r.set_word_register_low(0x5577, hl);
    assert_eq!(r.read_byte(RegisterId::L), 0x77);
    assert_eq!(r.read_byte(RegisterId::H), old_h);
    r.set_word_register_high(0x5577, hl);
    assert_eq!(r.hl().value(), 0x5577);
}

#[test]
fn sp_and_pc_writes() {
    let mut r = Register::new();
    let sp = r.sp;
    r.set_word_register(0xC000, sp);
    assert_eq!(r.sp.value(), 0xC000);
    assert!(matches!(r.sp, WordRegister::StackPointer(0xC000)));
    let pc = r.pc;
    r.set_word_register(0x4321, pc);
    assert_eq!(r.pc.value(), 0x4321);
    assert!(matches!(r.pc, WordRegister::ProgramCounter(0x4321)));
}

#[test]
fn condition_codes() {
    let mut r = Register::new();
    r.set_flags(true, false, false, false);
    assert!(r.cc_flag(ConditionCode::Z));
    assert!(!r.cc_flag(ConditionCode::NZ));
    assert!(!r.cc_flag(ConditionCode::C));
    assert!(r.cc_flag(ConditionCode::NC));
    r.set_flags(false, false, false, true);
    assert!(!r.cc_flag(ConditionCode::Z));
    assert!(r.cc_flag(ConditionCode::NZ));
    assert!(r.cc_flag(ConditionCode::C));
    assert!(!r.cc_flag(ConditionCode::NC));
}

#[test]
fn set_flag_drops_low_nibble() {
    let mut r = Register::new();
    r.set_flag(0x9F);
    assert_eq!((r.flags.z, r.flags.n, r.flags.h, r.flags.c), (true, false, false, true));
    assert_eq!(r.af().value() & 0x000F, 0);
}

#[test]
fn word_register_value_of_snapshot() {
    let w = WordRegister::Double(
        ByteRegister { value: 0xAB, id: RegisterId::H },
        ByteRegister { value: 0xCD, id: RegisterId::L },
    );
    assert_eq!(w.value(), 0xABCD);
    let f = FlagRegister { z: false, n: false, h: false, c: true };
    let a = ByteRegister { value: 0x7E, id: RegisterId::A };
    assert_eq!(WordRegister::AccFlag(a, f).value(), 0x7E10);
}

#[test]
fn pair_write_with_interleaved_bus_access() {
    let mut r = Register::new();
    let rom: Vec<u8> = vec![];
    let mem = MemoryMap::new(&rom, &String::from("game"));
    let sp = r.sp;
    let mut out = r.set_word_register_with_callback(
        0xFFFC,
        sp,
        |mut m: MemoryMap| {
            m.write(0xC000, 0x99);
            m
        },
        mem,
    );
    assert_eq!(r.sp.value(), 0xFFFC);
    assert_eq!(out.read(0xC000), 0x99);
}
