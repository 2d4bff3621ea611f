//! The DMG register file: seven byte registers, the packed flag register,
//! and the word registers SP and PC together with the virtual byte-pair
//! aliases AF, BC, DE and HL.

use vstd::prelude::*;

use crate::memory_map::MemoryMap;

verus! {

/// Identifier of one of the seven byte registers.
#[derive(Copy, Clone, Debug, PartialEq, Eq, Structural)]
pub enum RegisterId {
    A,
    B,
    C,
    D,
    E,
    H,
    L,
}

/// One byte register slot: its current value and its own identifier.
#[derive(Copy, Clone, Debug, PartialEq, Eq, Structural)]
pub struct ByteRegister {
    pub value: u8,
    pub id: RegisterId,
}

/// The four condition flags: Z (zero), N (subtract), H (half-carry),
/// C (carry). Packed into the high nibble of a byte in bit order
/// Z = 7, N = 6, H = 5, C = 4; the low nibble is always zero on read-back.
#[derive(Copy, Clone, Debug, PartialEq, Eq, Structural)]
pub struct FlagRegister {
    pub z: bool,
    pub n: bool,
    pub h: bool,
    pub c: bool,
}

/// The packed byte form of a flag register: Z, N, H, C in bits 7..4,
/// low nibble zero.
pub open spec fn pack_flags(f: FlagRegister) -> u8 {
    ((if f.z {
        0x80u8
    } else {
        0u8
    }) + (if f.n {
        0x40u8
    } else {
        0u8
    }) + (if f.h {
        0x20u8
    } else {
        0u8
    }) + (if f.c {
        0x10u8
    } else {
        0u8
    })) as u8
}

/// The flags encoded in the high nibble of a byte; bits 3..0 are ignored.
pub open spec fn unpack_flags(v: u8) -> FlagRegister {
    FlagRegister { z: v & 0x80 != 0, n: v & 0x40 != 0, h: v & 0x20 != 0, c: v & 0x10 != 0 }
}

impl FlagRegister {
    /// Packs the four flags into a byte, Z/N/H/C in bits 7..4.
    pub fn value(&self) -> (r: u8)
        ensures
            r == pack_flags(*self),
    {
        (if self.z {
            0x80u8
        } else {
            0u8
        }) + (if self.n {
            0x40u8
        } else {
            0u8
        }) + (if self.h {
            0x20u8
        } else {
            0u8
        }) + (if self.c {
            0x10u8
        } else {
            0u8
        })
    }

    /// Loads the four flags from bits 7..4 of a byte.
    pub fn set(&mut self, v: u8)
        ensures
            *final(self) == unpack_flags(v),
    {
        self.z = v & 0x80 != 0;
        self.n = v & 0x40 != 0;
        self.h = v & 0x20 != 0;
        self.c = v & 0x10 != 0;
    }
}

/// Flag packing round-trip: unpacking a packed flag register gives the
/// flags back, and the packed byte always has a zero low nibble.
pub proof fn lemma_flag_pack_unpack(f: FlagRegister)
    ensures
        unpack_flags(pack_flags(f)) == f,
        pack_flags(f) & 0x0F == 0,
{
    let z = f.z;
    let n = f.n;
    let h = f.h;
    let c = f.c;
    let p = pack_flags(f);
    assert((p & 0x80 != 0) == z && (p & 0x40 != 0) == n && (p & 0x20 != 0) == h && (p & 0x10 != 0)
        == c && p & 0x0F == 0) by (bit_vector)
        requires
            p == ((if z {
                0x80u8
            } else {
                0u8
            }) + (if n {
                0x40u8
            } else {
                0u8
            }) + (if h {
                0x20u8
            } else {
                0u8
            }) + (if c {
                0x10u8
            } else {
                0u8
            })) as u8,
    ;
}

/// Packing the flags unpacked from a byte keeps exactly the byte's high
/// nibble: the low nibble reads back as zero.
pub proof fn lemma_flag_unpack_pack(v: u8)
    ensures
        pack_flags(unpack_flags(v)) == v & 0xF0,
{
    let z = v & 0x80 != 0;
    let n = v & 0x40 != 0;
    let h = v & 0x20 != 0;
    let c = v & 0x10 != 0;
    assert(((if z {
        0x80u8
    } else {
        0u8
    }) + (if n {
        0x40u8
    } else {
        0u8
    }) + (if h {
        0x20u8
    } else {
        0u8
    }) + (if c {
        0x10u8
    } else {
        0u8
    })) as u8 == v & 0xF0) by (bit_vector)
        requires
            z == (v & 0x80 != 0) && n == (v & 0x40 != 0) && h == (v & 0x20 != 0) && c == (v & 0x10
                != 0),
    ;
}

/// A word register: either a pair of byte-register slots (BC, DE, HL),
/// the accumulator paired with the packed flag register (AF), or one of
/// the two free-standing 16-bit slots SP and PC.
#[derive(Copy, Clone, Debug, PartialEq, Eq, Structural)]
pub enum WordRegister {
    Double(ByteRegister, ByteRegister),
    AccFlag(ByteRegister, FlagRegister),
    StackPointer(u16),
    ProgramCounter(u16),
}

impl WordRegister {
    /// The 16-bit value of this word register: high byte times 0x100 plus
    /// low byte; for AF the low byte is the packed flag register.
    pub open spec fn spec_value(self) -> u16 {
        match self {
            WordRegister::Double(hi, lo) => (hi.value * 0x100 + lo.value) as u16,
            WordRegister::AccFlag(a, f) => (a.value * 0x100 + pack_flags(f)) as u16,
            WordRegister::StackPointer(n) => n,
            WordRegister::ProgramCounter(n) => n,
        }
    }

    /// Reads the 16-bit value of this word register.
    pub fn value(self) -> (r: u16)
        ensures
            r == self.spec_value(),
    {
        match self {
            WordRegister::Double(hi, lo) => (hi.value as u16) * 0x100 + (lo.value as u16),
            WordRegister::AccFlag(a, f) => (a.value as u16) * 0x100 + (f.value() as u16),
            WordRegister::StackPointer(n) => n,
            WordRegister::ProgramCounter(n) => n,
        }
    }
}

/// A bit index 0..=7, as carried by the CB-prefixed bit instructions.
#[derive(Copy, Clone, Debug, PartialEq, Eq, Structural)]
pub struct Bit(pub u8);

/// A condition code over the current flags, consumed by conditional
/// jumps, calls and returns.
#[derive(Copy, Clone, Debug, PartialEq, Eq, Structural)]
pub enum ConditionCode {
    Z,
    NZ,
    C,
    NC,
}

/// The register file. SP and PC are plain 16-bit slots reachable only
/// through the word interface, never through the byte-register path.
pub struct Register {
    pub a: ByteRegister,
    pub b: ByteRegister,
    pub c: ByteRegister,
    pub d: ByteRegister,
    pub e: ByteRegister,
    pub h: ByteRegister,
    pub l: ByteRegister,
    pub flags: FlagRegister,
    pub sp: WordRegister,
    pub pc: WordRegister,
}

impl Register {
    /// Each byte slot carries its own identifier, SP is a StackPointer and
    /// PC a ProgramCounter.
    pub open spec fn wf(self) -> bool {
        &&& self.a.id == RegisterId::A
        &&& self.b.id == RegisterId::B
        &&& self.c.id == RegisterId::C
        &&& self.d.id == RegisterId::D
        &&& self.e.id == RegisterId::E
        &&& self.h.id == RegisterId::H
        &&& self.l.id == RegisterId::L
        &&& self.sp is StackPointer
        &&& self.pc is ProgramCounter
    }

    /// The value of one byte register.
    pub open spec fn spec_read_byte(self, id: RegisterId) -> u8 {
        match id {
            RegisterId::A => self.a.value,
            RegisterId::B => self.b.value,
            RegisterId::C => self.c.value,
            RegisterId::D => self.d.value,
            RegisterId::E => self.e.value,
            RegisterId::H => self.h.value,
            RegisterId::L => self.l.value,
        }
    }

    /// The register file with one byte register set to `v`.
    pub open spec fn spec_with_byte(self, id: RegisterId, v: u8) -> Register {
        match id {
            RegisterId::A => Register { a: ByteRegister { value: v, id: self.a.id }, ..self },
            RegisterId::B => Register { b: ByteRegister { value: v, id: self.b.id }, ..self },
            RegisterId::C => Register { c: ByteRegister { value: v, id: self.c.id }, ..self },
            RegisterId::D => Register { d: ByteRegister { value: v, id: self.d.id }, ..self },
            RegisterId::E => Register { e: ByteRegister { value: v, id: self.e.id }, ..self },
            RegisterId::H => Register { h: ByteRegister { value: v, id: self.h.id }, ..self },
            RegisterId::L => Register { l: ByteRegister { value: v, id: self.l.id }, ..self },
        }
    }

    /// The post-boot-ROM reset state: A=0x01, B=0x00, C=0x13, D=0x00,
    /// E=0xD8, H=0x01, L=0x4D, SP=0xFFFE, PC=0x0100, flags Z=1 N=0 H=1 C=1.
    pub open spec fn reset_state() -> Register {
        Register {
            a: ByteRegister { value: 0x01, id: RegisterId::A },
            b: ByteRegister { value: 0x00, id: RegisterId::B },
            c: ByteRegister { value: 0x13, id: RegisterId::C },
            d: ByteRegister { value: 0x00, id: RegisterId::D },
            e: ByteRegister { value: 0xD8, id: RegisterId::E },
            h: ByteRegister { value: 0x01, id: RegisterId::H },
            l: ByteRegister { value: 0x4D, id: RegisterId::L },
            flags: FlagRegister { z: true, n: false, h: true, c: true },
            sp: WordRegister::StackPointer(0xFFFE),
            pc: WordRegister::ProgramCounter(0x0100),
        }
    }

    /// A fresh register file in the reset state.
    pub fn new() -> (r: Register)
        ensures
            r == Register::reset_state(),
            r.wf(),
    {
        Register {
            a: ByteRegister { value: 0x01, id: RegisterId::A },
            b: ByteRegister { value: 0x00, id: RegisterId::B },
            c: ByteRegister { value: 0x13, id: RegisterId::C },
            d: ByteRegister { value: 0x00, id: RegisterId::D },
            e: ByteRegister { value: 0xD8, id: RegisterId::E },
            h: ByteRegister { value: 0x01, id: RegisterId::H },
            l: ByteRegister { value: 0x4D, id: RegisterId::L },
            flags: FlagRegister { z: true, n: false, h: true, c: true },
            sp: WordRegister::StackPointer(0xFFFE),
            pc: WordRegister::ProgramCounter(0x0100),
        }
    }

    /// Reads one byte register.
    pub fn read_byte(&self, id: RegisterId) -> (r: u8)
        ensures
            r == self.spec_read_byte(id),
    {
        match id {
            RegisterId::A => self.a.value,
            RegisterId::B => self.b.value,
            RegisterId::C => self.c.value,
            RegisterId::D => self.d.value,
            RegisterId::E => self.e.value,
            RegisterId::H => self.h.value,
            RegisterId::L => self.l.value,
        }
    }

    /// Writes one byte register, leaving every other slot unchanged.
    pub fn write_byte(&mut self, id: RegisterId, v: u8)
        ensures
            *final(self) == old(self).spec_with_byte(id, v),
    {
        match id {
            RegisterId::A => self.a.value = v,
            RegisterId::B => self.b.value = v,
            RegisterId::C => self.c.value = v,
            RegisterId::D => self.d.value = v,
            RegisterId::E => self.e.value = v,
            RegisterId::H => self.h.value = v,
            RegisterId::L => self.l.value = v,
        }
    }

    /// The AF view: accumulator in the high byte, packed flags in the low.
    pub open spec fn spec_af(self) -> u16 {
        (self.a.value * 0x100 + pack_flags(self.flags)) as u16
    }

    pub open spec fn spec_bc(self) -> u16 {
        (self.b.value * 0x100 + self.c.value) as u16
    }

    pub open spec fn spec_de(self) -> u16 {
        (self.d.value * 0x100 + self.e.value) as u16
    }

    pub open spec fn spec_hl(self) -> u16 {
        (self.h.value * 0x100 + self.l.value) as u16
    }

    /// The AF pair as a word register snapshot.
    pub fn af(&self) -> (r: WordRegister)
        ensures
            r == WordRegister::AccFlag(self.a, self.flags),
            r.spec_value() == self.spec_af(),
    {
        WordRegister::AccFlag(self.a, self.flags)
    }

    /// The BC pair as a word register snapshot.
    pub fn bc(&self) -> (r: WordRegister)
        ensures
            r == WordRegister::Double(self.b, self.c),
            r.spec_value() == self.spec_bc(),
    {
        WordRegister::Double(self.b, self.c)
    }

    /// The DE pair as a word register snapshot.
    pub fn de(&self) -> (r: WordRegister)
        ensures
            r == WordRegister::Double(self.d, self.e),
            r.spec_value() == self.spec_de(),
    {
        WordRegister::Double(self.d, self.e)
    }

    /// The HL pair as a word register snapshot.
    pub fn hl(&self) -> (r: WordRegister)
        ensures
            r == WordRegister::Double(self.h, self.l),
            r.spec_value() == self.spec_hl(),
    {
        WordRegister::Double(self.h, self.l)
    }

    /// The register file after the low half of a word write: the low byte
    /// slot (or the flag register, or the whole SP/PC slot) is written, the
    /// high half is still untouched.
    pub open spec fn spec_with_pair_low(self, reg: WordRegister, value: u16) -> Register {
        match reg {
            WordRegister::Double(_, lo) => self.spec_with_byte(lo.id, (value % 0x100) as u8),
            WordRegister::AccFlag(_, _) => Register {
                flags: unpack_flags((value % 0x100) as u8),
                ..self
            },
            WordRegister::StackPointer(_) => Register {
                sp: WordRegister::StackPointer(value),
                ..self
            },
            WordRegister::ProgramCounter(_) => Register {
                pc: WordRegister::ProgramCounter(value),
                ..self
            },
        }
    }

    /// The register file after the high half of a word write. For SP and PC
    /// the low step already stored the whole value.
    pub open spec fn spec_with_pair_high(self, reg: WordRegister, value: u16) -> Register {
        match reg {
            WordRegister::Double(hi, _) => self.spec_with_byte(hi.id, (value / 0x100) as u8),
            WordRegister::AccFlag(_, _) => self.spec_with_byte(
                RegisterId::A,
                (value / 0x100) as u8,
            ),
            WordRegister::StackPointer(_) => self,
            WordRegister::ProgramCounter(_) => self,
        }
    }

    /// The register file after a full word write: low half first, then high.
    pub open spec fn spec_with_pair(self, reg: WordRegister, value: u16) -> Register {
        self.spec_with_pair_low(reg, value).spec_with_pair_high(reg, value)
    }

    /// The 16-bit value read back through a word register's alias: the
    /// current byte slots for a pair, A and the packed flags for AF, the
    /// stored slot for SP and PC.
    pub open spec fn spec_read_pair(self, reg: WordRegister) -> u16 {
        match reg {
            WordRegister::Double(hi, lo) => (self.spec_read_byte(hi.id) * 0x100
                + self.spec_read_byte(lo.id)) as u16,
            WordRegister::AccFlag(_, _) => self.spec_af(),
            WordRegister::StackPointer(_) => self.sp.spec_value(),
            WordRegister::ProgramCounter(_) => self.pc.spec_value(),
        }
    }

    /// Writes the low half of a word register: the low byte slot of a pair,
    /// the flag register for AF (its low nibble is dropped), or the whole
    /// value for SP and PC. On real hardware this half is on the bus before
    /// the high half.
    pub fn set_word_register_low(&mut self, value: u16, reg: WordRegister)
        ensures
            *final(self) == old(self).spec_with_pair_low(reg, value),
    {
        let lo = (value % 0x100) as u8;
        match reg {
            WordRegister::Double(_, b) => self.write_byte(b.id, lo),
            WordRegister::AccFlag(_, _) => self.set_flag(lo),
            WordRegister::StackPointer(_) => self.sp = WordRegister::StackPointer(value),
            WordRegister::ProgramCounter(_) => self.pc = WordRegister::ProgramCounter(value),
        }
    }

    /// Writes the high half of a word register: the high byte slot of a
    /// pair, the accumulator for AF, nothing for SP and PC.
    pub fn set_word_register_high(&mut self, value: u16, reg: WordRegister)
        ensures
            *final(self) == old(self).spec_with_pair_high(reg, value),
    {
        let hi = (value / 0x100) as u8;
        match reg {
            WordRegister::Double(a, _) => self.write_byte(a.id, hi),
            WordRegister::AccFlag(_, _) => self.write_byte(RegisterId::A, hi),
            WordRegister::StackPointer(_) => (),
            WordRegister::ProgramCounter(_) => (),
        }
    }

    /// Writes a word register: low half first, then the high half.
    pub fn set_word_register(&mut self, value: u16, reg: WordRegister)
        ensures
            *final(self) == old(self).spec_with_pair(reg, value),
    {
        self.set_word_register_low(value, reg);
        self.set_word_register_high(value, reg);
    }

    /// Writes a word register with a bus access interleaved between the two
    /// halves, as the hardware performs one for `LD (u16), SP` and the
    /// stack pushes: the low half lands, the callback runs against the bus,
    /// then the high half lands.
    pub fn set_word_register_with_callback<F: FnOnce(MemoryMap) -> MemoryMap>(
        &mut self,
        value: u16,
        reg: WordRegister,
        callback: F,
        mem: MemoryMap,
    ) -> (out: MemoryMap)
        requires
            call_requires(callback, (mem,)),
        ensures
            *final(self) == old(self).spec_with_pair(reg, value),
            call_ensures(callback, (mem,), out),
    {
        self.set_word_register_low(value, reg);
        let out = callback(mem);
        self.set_word_register_high(value, reg);
        out
    }

    /// Evaluates a condition code against the current flags.
    pub open spec fn spec_cc(self, cc: ConditionCode) -> bool {
        match cc {
            ConditionCode::Z => self.flags.z,
            ConditionCode::NZ => !self.flags.z,
            ConditionCode::C => self.flags.c,
            ConditionCode::NC => !self.flags.c,
        }
    }

    /// Evaluates a condition code against the current flags.
    pub fn cc_flag(&self, cc: ConditionCode) -> (r: bool)
        ensures
            r == self.spec_cc(cc),
    {
        match cc {
            ConditionCode::Z => self.flags.z,
            ConditionCode::NZ => !self.flags.z,
            ConditionCode::C => self.flags.c,
            ConditionCode::NC => !self.flags.c,
        }
    }

    /// Sets all four flags at once.
    pub fn set_flags(&mut self, z: bool, n: bool, h: bool, c: bool)
        ensures
            *final(self) == (Register { flags: FlagRegister { z, n, h, c }, ..*old(self) }),
    {
        self.flags.z = z;
        self.flags.n = n;
        self.flags.c = c;
        self.flags.h = h;
    }

    /// Loads the flag register from bits 7..4 of a byte; the low nibble is
    /// dropped.
    pub fn set_flag(&mut self, flag: u8)
        ensures
            *final(self) == (Register { flags: unpack_flags(flag), ..*old(self) }),
    {
        self.flags.set(flag);
    }
}

/// Writing a byte register and reading it back gives the value written,
/// and no other byte register moves.
pub proof fn lemma_byte_write_read(r: Register, id: RegisterId, v: u8)
    ensures
        r.spec_with_byte(id, v).spec_read_byte(id) == v,
        forall|other: RegisterId|
            other != id ==> r.spec_with_byte(id, v).spec_read_byte(other) == r.spec_read_byte(
                other,
            ),
{
}

/// A word write reads back as written: exactly the value for a pair of two
/// distinct byte slots and for SP and PC, and the value with its low nibble
/// zeroed for AF, whose low byte is the packed flag register.
pub proof fn lemma_pair_write_read(r: Register, reg: WordRegister, v: u16)
    requires
        r.wf(),
    ensures
        forall|hi: ByteRegister, lo: ByteRegister|
            reg == WordRegister::Double(hi, lo) && hi.id != lo.id ==> r.spec_with_pair(
                reg,
                v,
            ).spec_read_pair(reg) == v,
        reg is AccFlag ==> r.spec_with_pair(reg, v).spec_read_pair(reg) == v & 0xFFF0,
        reg is StackPointer ==> r.spec_with_pair(reg, v).spec_read_pair(reg) == v,
        reg is ProgramCounter ==> r.spec_with_pair(reg, v).spec_read_pair(reg) == v,
{
    let lo8 = (v % 0x100) as u8;
    let hi8 = (v / 0x100) as u8;
    assert(hi8 * 0x100 + lo8 == v);
    if reg is AccFlag {
        lemma_flag_unpack_pack(lo8);
        assert(hi8 * 0x100 + (lo8 & 0xF0) == v & 0xFFF0) by (bit_vector)
            requires
                lo8 == (v % 0x100) as u8 && hi8 == (v / 0x100) as u8,
        ;
    }
}

/// The low half of a pair write lands before the high half: after the low
/// step alone, the low byte slot already holds the low byte of the value
/// while the high byte slot is still unchanged.
pub proof fn lemma_pair_low_half_first(r: Register, hi: ByteRegister, lo: ByteRegister, v: u16)
    requires
        hi.id != lo.id,
    ensures
        r.spec_with_pair_low(WordRegister::Double(hi, lo), v).spec_read_byte(lo.id) == (v
            % 0x100) as u8,
        r.spec_with_pair_low(WordRegister::Double(hi, lo), v).spec_read_byte(hi.id)
            == r.spec_read_byte(hi.id),
{
}

} // verus!
