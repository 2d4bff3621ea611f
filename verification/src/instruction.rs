//! The instruction schema: a tagged variant for every legal DMG opcode
//! group, with the two pure metadata functions the executor needs — the
//! encoded size of a command and its machine-cycle cost, including the
//! fast/slow paths of the conditional branches.

use vstd::prelude::*;

use crate::register::{Bit, ConditionCode, RegisterId, WordRegister};

verus! {

/// A decoded instruction: the raw opcode byte and the decoded command.
pub struct Instruction(pub u8, pub Command);

/// An operand of an 8-bit operation: a byte register, an immediate byte,
/// or the byte addressed indirectly through HL.
#[derive(Copy, Clone, Debug, PartialEq, Eq, Structural)]
pub enum InstructionOperand {
    OpRegister(RegisterId),
    OpByte(u8),
    OpHL,
}

/// One mnemonic group of the DMG instruction set, with its operand shapes.
#[allow(non_camel_case_types)]
#[derive(Copy, Clone, Debug, PartialEq, Eq, Structural)]
pub enum Command {
    ADC_A(InstructionOperand),
    ADD_A(InstructionOperand),
    ADD_HL_R16(WordRegister),
    ADD_SP_I8(i8),
    AND_A(InstructionOperand),
    BIT_U3(Bit, InstructionOperand),
    CALL_CC_U16(ConditionCode, u16),
    CALL_U16(u16),
    CCF,
    CPL,
    CP_A(InstructionOperand),
    DAA,
    DECH_HL,
    DEC_R16(WordRegister),
    DEC_R8(RegisterId),
    DI,
    EI,
    HALT,
    INCH_HL,
    INC_R16(WordRegister),
    INC_R8(RegisterId),
    JP_CC_U16(ConditionCode, u16),
    JP_HL,
    JP_U16(u16),
    JR_CC_I8(ConditionCode, i8),
    JR_I8(i8),
    LDH_A_C,
    LDH_A_U16(u16),
    LDH_A_U8(u8),
    LDH_C_A,
    LDH_HL_U8(u8),
    LDH_U16_A(u16),
    LDH_U8_A(u8),
    LD_A_HLD,
    LD_A_HLI,
    LD_A_R16(WordRegister),
    LD_A_U8(u8),
    LD_HLD_A,
    LD_HLI_A,
    LD_HL_R8(RegisterId),
    LD_HL_SP_I8(i8),
    LD_R16_A(WordRegister),
    LD_R16_U16(WordRegister, u16),
    LD_R8_HL(RegisterId),
    LD_R8_R8(RegisterId, RegisterId),
    LD_R8_U8(RegisterId, u8),
    LD_SP_HL,
    LD_U16_SP(u16),
    NOP,
    OR_A(InstructionOperand),
    POP_R16(WordRegister),
    PUSH_AF,
    PUSH_R16(WordRegister),
    RES_U3_HL(Bit),
    RES_U3_R8(Bit, RegisterId),
    RET,
    RETI,
    RET_CC(ConditionCode),
    RL(InstructionOperand, bool),
    RLC(InstructionOperand, bool),
    RR(InstructionOperand, bool),
    RRC(InstructionOperand, bool),
    RST(RstVec),
    SBC_A(InstructionOperand),
    SCF,
    SET_U3_HL(Bit),
    SET_U3_R8(Bit, RegisterId),
    SLA(InstructionOperand),
    SRA(InstructionOperand),
    SRL(InstructionOperand),
    STOP,
    SUB_A(InstructionOperand),
    SWAP_HL,
    SWAP_R8(RegisterId),
    XOR_A(InstructionOperand),
}

impl Command {
    /// Whether the operand shape of this command is one the decoder can
    /// produce. The accumulator short form of the rotates carries register A
    /// only, the CB-prefixed rotates, shifts and bit operations never carry
    /// an immediate byte. An illegal shape is a programmer error in the
    /// decoder, on which the metadata functions fail loudly.
    pub open spec fn legal(self) -> bool {
        match self {
            Command::RL(op, small)
            | Command::RLC(op, small)
            | Command::RR(op, small)
            | Command::RRC(op, small) => {
                if small {
                    op == InstructionOperand::OpRegister(RegisterId::A)
                } else {
                    !(op is OpByte)
                }
            },
            Command::BIT_U3(_, op) => !(op is OpByte),
            Command::SLA(op) | Command::SRA(op) | Command::SRL(op) => !(op is OpByte),
            _ => true,
        }
    }

    /// The encoded size of a legal command, in bytes.
    pub open spec fn spec_size(self) -> u8 {
        match self {
            Command::ADC_A(n)
            | Command::ADD_A(n)
            | Command::AND_A(n)
            | Command::CP_A(n)
            | Command::OR_A(n)
            | Command::SBC_A(n)
            | Command::SUB_A(n)
            | Command::XOR_A(n) => if n is OpByte {
                2
            } else {
                1
            },
            Command::RL(_, small)
            | Command::RLC(_, small)
            | Command::RR(_, small)
            | Command::RRC(_, small) => if small {
                1
            } else {
                2
            },
            Command::LD_A_U8(..) | Command::BIT_U3(..) | Command::RES_U3_R8(..)
            | Command::RES_U3_HL(..) | Command::SET_U3_R8(..) | Command::SET_U3_HL(..)
            | Command::SWAP_R8(..) | Command::SWAP_HL | Command::SLA(..) | Command::SRA(..)
            | Command::SRL(..) | Command::LD_R8_U8(..) | Command::JR_I8(..)
            | Command::JR_CC_I8(..) | Command::LDH_A_U8(..) | Command::LDH_U8_A(..)
            | Command::ADD_SP_I8(..) | Command::LD_HL_SP_I8(..) | Command::LDH_HL_U8(..) => 2,
            Command::LDH_U16_A(..) | Command::LDH_A_U16(..) | Command::LD_R16_U16(..)
            | Command::CALL_U16(..) | Command::CALL_CC_U16(..) | Command::JP_U16(..)
            | Command::JP_CC_U16(..) | Command::LD_U16_SP(..) => 3,
            _ => 1,
        }
    }

    /// The machine-cycle cost of a legal command. For the conditional
    /// branches `branch` picks the taken (slow) or untaken (fast) path.
    pub open spec fn spec_cycles(self, branch: bool) -> u8 {
        match self {
            Command::ADD_A(n)
            | Command::SUB_A(n)
            | Command::SBC_A(n)
            | Command::AND_A(n)
            | Command::XOR_A(n)
            | Command::OR_A(n)
            | Command::CP_A(n)
            | Command::ADC_A(n) => if n is OpRegister {
                1
            } else {
                2
            },
            Command::BIT_U3(_, op) => if op is OpRegister {
                2
            } else {
                3
            },
            Command::DAA | Command::CPL | Command::SCF | Command::CCF | Command::HALT
            | Command::DI | Command::EI | Command::JP_HL | Command::INC_R8(..)
            | Command::DEC_R8(..) | Command::LD_R8_R8(..) | Command::NOP | Command::STOP => 1,
            Command::SLA(op) | Command::SRA(op) | Command::SRL(op) => if op is OpRegister {
                2
            } else {
                4
            },
            Command::RL(op, small)
            | Command::RLC(op, small)
            | Command::RR(op, small)
            | Command::RRC(op, small) => if small {
                1
            } else if op is OpRegister {
                2
            } else {
                4
            },
            Command::INC_R16(..) | Command::LD_SP_HL | Command::LD_R8_U8(..)
            | Command::LD_HL_R8(..) | Command::LD_A_U8(..) | Command::ADD_HL_R16(..)
            | Command::LD_A_R16(..) | Command::DEC_R16(..) | Command::LDH_C_A
            | Command::LDH_A_C | Command::LD_R8_HL(..) | Command::LD_R16_A(..)
            | Command::LD_A_HLD | Command::LD_A_HLI | Command::LD_HLD_A | Command::LD_HLI_A
            | Command::SWAP_R8(..) | Command::SET_U3_R8(..) | Command::RES_U3_R8(..) => 2,
            Command::POP_R16(..) | Command::JR_I8(..) | Command::LDH_U8_A(..)
            | Command::DECH_HL | Command::INCH_HL | Command::LDH_HL_U8(..)
            | Command::LD_HL_SP_I8(..) | Command::LDH_A_U8(..) | Command::LD_R16_U16(..) => 3,
            Command::LDH_U16_A(..) | Command::PUSH_AF | Command::RETI | Command::RET
            | Command::JP_U16(..) | Command::PUSH_R16(..) | Command::ADD_SP_I8(..)
            | Command::RST(..) | Command::LDH_A_U16(..) | Command::SWAP_HL
            | Command::RES_U3_HL(..) | Command::SET_U3_HL(..) => 4,
            Command::LD_U16_SP(..) => 5,
            Command::CALL_U16(..) => 6,
            Command::JR_CC_I8(..) => if branch {
                3
            } else {
                2
            },
            Command::JP_CC_U16(..) => if branch {
                4
            } else {
                3
            },
            Command::RET_CC(..) => if branch {
                5
            } else {
                2
            },
            Command::CALL_CC_U16(..) => if branch {
                6
            } else {
                3
            },
        }
    }

    /// The encoded size of this command, in bytes: 2 for an 8-bit operation
    /// on an immediate byte and for the CB-prefixed and one-immediate forms,
    /// 3 for the forms carrying a 16-bit immediate, 1 otherwise.
    pub fn size(&self) -> (r: u8)
        requires
            self.legal(),
        ensures
            r == self.spec_size(),
    {
        match self {
            Command::ADC_A(n) | Command::ADD_A(n) | Command::AND_A(n) | Command::CP_A(n)
            | Command::OR_A(n) | Command::SBC_A(n) | Command::SUB_A(n) | Command::XOR_A(n) => {
                match n {
                    InstructionOperand::OpByte(_) => 2,
                    _ => 1,
                }
            },
            Command::RL(_, small) | Command::RLC(_, small) | Command::RR(_, small)
            | Command::RRC(_, small) => {
                if *small {
                    1
                } else {
                    2
                }
            },
            Command::LD_A_U8(..) | Command::BIT_U3(..) | Command::RES_U3_R8(..)
            | Command::RES_U3_HL(..) | Command::SET_U3_R8(..) | Command::SET_U3_HL(..)
            | Command::SWAP_R8(..) | Command::SWAP_HL | Command::SLA(..) | Command::SRA(..)
            | Command::SRL(..) | Command::LD_R8_U8(..) | Command::JR_I8(..)
            | Command::JR_CC_I8(..) | Command::LDH_A_U8(..) | Command::LDH_U8_A(..)
            | Command::ADD_SP_I8(..) | Command::LD_HL_SP_I8(..) | Command::LDH_HL_U8(..) => 2,
            Command::LDH_U16_A(..) | Command::LDH_A_U16(..) | Command::LD_R16_U16(..)
            | Command::CALL_U16(..) | Command::CALL_CC_U16(..) | Command::JP_U16(..)
            | Command::JP_CC_U16(..) | Command::LD_U16_SP(..) => 3,
            _ => 1,
        }
    }

    /// The machine-cycle cost of this command. Conditional branches charge
    /// the slow path when `branch` is true (JR cc 3/2, JP cc 4/3, RET cc
    /// 5/2, CALL cc 6/3); unconditional forms always charge the taken cost.
    pub fn cycles(&self, branch: bool) -> (r: u8)
        requires
            self.legal(),
        ensures
            r == self.spec_cycles(branch),
    {
        match self {
            Command::ADD_A(n) | Command::SUB_A(n) | Command::SBC_A(n) | Command::AND_A(n)
            | Command::XOR_A(n) | Command::OR_A(n) | Command::CP_A(n) | Command::ADC_A(n) => {
                match n {
                    InstructionOperand::OpRegister(_) => 1,
                    _ => 2,
                }
            },
            Command::BIT_U3(_, op) => {
                match op {
                    InstructionOperand::OpRegister(_) => 2,
                    _ => 3,
                }
            },
            Command::DAA | Command::CPL | Command::SCF | Command::CCF | Command::HALT
            | Command::DI | Command::EI | Command::JP_HL | Command::INC_R8(..)
            | Command::DEC_R8(..) | Command::LD_R8_R8(..) | Command::NOP | Command::STOP => 1,
            Command::SLA(op) | Command::SRA(op) | Command::SRL(op) => {
                match op {
                    InstructionOperand::OpRegister(_) => 2,
                    _ => 4,
                }
            },
            Command::RL(op, small) | Command::RLC(op, small) | Command::RR(op, small)
            | Command::RRC(op, small) => {
                if *small {
                    1
                } else {
                    match op {
                        InstructionOperand::OpRegister(_) => 2,
                        _ => 4,
                    }
                }
            },
            Command::INC_R16(..) | Command::LD_SP_HL | Command::LD_R8_U8(..)
            | Command::LD_HL_R8(..) | Command::LD_A_U8(..) | Command::ADD_HL_R16(..)
            | Command::LD_A_R16(..) | Command::DEC_R16(..) | Command::LDH_C_A
            | Command::LDH_A_C | Command::LD_R8_HL(..) | Command::LD_R16_A(..)
            | Command::LD_A_HLD | Command::LD_A_HLI | Command::LD_HLD_A | Command::LD_HLI_A
            | Command::SWAP_R8(..) | Command::SET_U3_R8(..) | Command::RES_U3_R8(..) => 2,
            Command::POP_R16(..) | Command::JR_I8(..) | Command::LDH_U8_A(..)
            | Command::DECH_HL | Command::INCH_HL | Command::LDH_HL_U8(..)
            | Command::LD_HL_SP_I8(..) | Command::LDH_A_U8(..) | Command::LD_R16_U16(..) => 3,
            Command::LDH_U16_A(..) | Command::PUSH_AF | Command::RETI | Command::RET
            | Command::JP_U16(..) | Command::PUSH_R16(..) | Command::ADD_SP_I8(..)
            | Command::RST(..) | Command::LDH_A_U16(..) | Command::SWAP_HL
            | Command::RES_U3_HL(..) | Command::SET_U3_HL(..) => 4,
            Command::LD_U16_SP(..) => 5,
            Command::CALL_U16(..) => 6,
            Command::JR_CC_I8(..) => {
                if branch {
                    3
                } else {
                    2
                }
            },
            Command::JP_CC_U16(..) => {
                if branch {
                    4
                } else {
                    3
                }
            },
            Command::RET_CC(..) => {
                if branch {
                    5
                } else {
                    2
                }
            },
            Command::CALL_CC_U16(..) => {
                if branch {
                    6
                } else {
                    3
                }
            },
        }
    }
}

/// Every legal command is one, two or three bytes long.
pub proof fn lemma_size_in_range(c: Command)
    requires
        c.legal(),
    ensures
        1 <= c.spec_size() <= 3,
{
}

/// Every legal command costs between one and six machine cycles, on either
/// branch path, and the four conditional branches charge exactly their
/// taken/untaken pairs: JR cc 3/2, JP cc 4/3, RET cc 5/2, CALL cc 6/3.
pub proof fn lemma_cycles_in_range(c: Command, branch: bool)
    requires
        c.legal(),
    ensures
        1 <= c.spec_cycles(branch) <= 6,
        c is JR_CC_I8 ==> c.spec_cycles(true) == 3 && c.spec_cycles(false) == 2,
        c is JP_CC_U16 ==> c.spec_cycles(true) == 4 && c.spec_cycles(false) == 3,
        c is RET_CC ==> c.spec_cycles(true) == 5 && c.spec_cycles(false) == 2,
        c is CALL_CC_U16 ==> c.spec_cycles(true) == 6 && c.spec_cycles(false) == 3,
{
}

/// One of the eight restart vectors 0x00, 0x08, .., 0x38.
#[derive(Copy, Clone, Debug, PartialEq, Eq, Structural)]
pub enum RstVec {
    X00,
    X08,
    X10,
    X18,
    X20,
    X28,
    X30,
    X38,
}

impl RstVec {
    /// The address this restart vector jumps to.
    pub open spec fn spec_address(self) -> u16 {
        match self {
            RstVec::X00 => 0x00,
            RstVec::X08 => 0x08,
            RstVec::X10 => 0x10,
            RstVec::X18 => 0x18,
            RstVec::X20 => 0x20,
            RstVec::X28 => 0x28,
            RstVec::X30 => 0x30,
            RstVec::X38 => 0x38,
        }
    }

    /// The address this restart vector jumps to.
    pub fn address(self) -> (r: u16)
        ensures
            r == self.spec_address(),
    {
        match self {
            RstVec::X00 => 0x00,
            RstVec::X08 => 0x08,
            RstVec::X10 => 0x10,
            RstVec::X18 => 0x18,
            RstVec::X20 => 0x20,
            RstVec::X28 => 0x28,
            RstVec::X30 => 0x30,
            RstVec::X38 => 0x38,
        }
    }
}

} // verus!
