use dmg_core::instruction::{Command, InstructionOperand, RstVec};
use dmg_core::register::{Bit, ConditionCode, Register, RegisterId, WordRegister};

#[test]
fn sizes_one_byte() {
    assert_eq!(Command::NOP.size(), 1);
    assert_eq!(Command::HALT.size(), 1);
    assert_eq!(Command::ADD_A(InstructionOperand::OpRegister(RegisterId::B)).size(), 1);
    assert_eq!(Command::XOR_A(InstructionOperand::OpHL).size(), 1);
    assert_eq!(Command::RLC(InstructionOperand::OpRegister(RegisterId::A), true).size(), 1);
    assert_eq!(Command::RST(RstVec::X18).size(), 1);
    assert_eq!(Command::LD_A_HLI.size(), 1);
}

#[test]
fn sizes_two_bytes() {
    assert_eq!(Command::ADC_A(InstructionOperand::OpByte(0x20)).size(), 2);
    assert_eq!(Command::BIT_U3(Bit(7), InstructionOperand::OpHL).size(), 2);
    assert_eq!(Command::RL(InstructionOperand::OpRegister(RegisterId::C), false).size(), 2);
    assert_eq!(Command::JR_I8(-3).size(), 2);
    assert_eq!(Command::JR_CC_I8(ConditionCode::NZ, 5).size(), 2);
    assert_eq!(Command::LDH_A_U8(0x44).size(), 2);
    assert_eq!(Command::ADD_SP_I8(-8).size(), 2);
    assert_eq!(Command::LD_R8_U8(RegisterId::D, 0x12).size(), 2);
    assert_eq!(Command::SWAP_HL.size(), 2);
}

#[test]
fn sizes_three_bytes() {
    assert_eq!(Command::CALL_U16(0x1234).size(), 3);
    assert_eq!(Command::CALL_CC_U16(ConditionCode::Z, 0x1234).size(), 3);
    assert_eq!(Command::JP_U16(0x0150).size(), 3);
    assert_eq!(Command::LD_U16_SP(0xC000).size(), 3);
    assert_eq!(Command::LDH_A_U16(0xFF44).size(), 3);
}

#[test]
fn cycles_table_samples() {
    assert_eq!(Command::NOP.cycles(false), 1);
    assert_eq!(Command::ADD_A(InstructionOperand::OpRegister(RegisterId::B)).cycles(false), 1);
    assert_eq!(Command::ADD_A(InstructionOperand::OpHL).cycles(false), 2);
    assert_eq!(Command::ADD_A(InstructionOperand::OpByte(9)).cycles(false), 2);
    assert_eq!(Command::BIT_U3(Bit(0), InstructionOperand::OpRegister(RegisterId::A)).cycles(false), 2);
    assert_eq!(Command::BIT_U3(Bit(0), InstructionOperand::OpHL).cycles(false), 3);
    assert_eq!(Command::SLA(InstructionOperand::OpHL).cycles(false), 4);
    assert_eq!(Command::RR(InstructionOperand::OpRegister(RegisterId::A), true).cycles(false), 1);
    assert_eq!(Command::RR(InstructionOperand::OpHL, false).cycles(false), 4);
    assert_eq!(Command::POP_R16(word_bc()).cycles(false), 3);
    assert_eq!(Command::PUSH_R16(word_bc()).cycles(false), 4);
    assert_eq!(Command::LD_U16_SP(0xC000).cycles(false), 5);
    assert_eq!(Command::CALL_U16(0x1234).cycles(false), 6);
    assert_eq!(Command::CALL_U16(0x1234).cycles(true), 6);
    assert_eq!(Command::RET.cycles(false), 4);
}

fn word_bc() -> WordRegister {
    let r = Register::new();
    r.bc()
}

#[test]
fn conditional_jr_timing() {
    // JR NZ, +5: taken when Z = 0.
    let mut r = Register::new();
    let cmd = Command::JR_CC_I8(ConditionCode::NZ, 5);
    r.set_flags(false, false, false, false);
    assert_eq!(cmd.cycles(r.cc_flag(ConditionCode::NZ)), 3);
    r.set_flags(true, false, false, false);
    assert_eq!(cmd.cycles(r.cc_flag(ConditionCode::NZ)), 2);
}

#[test]
fn conditional_call_timing() {
    // CALL Z, 0x1234: untaken when Z = 0, taken when Z = 1.
    let mut r = Register::new();
    let cmd = Command::CALL_CC_U16(ConditionCode::Z, 0x1234);
    r.set_flags(false, false, false, false);
    assert_eq!(cmd.cycles(r.cc_flag(ConditionCode::Z)), 3);
    assert_eq!(cmd.size(), 3);
    r.set_flags(true, false, false, false);
    assert_eq!(cmd.cycles(r.cc_flag(ConditionCode::Z)), 6);
}

#[test]
fn conditional_jp_and_ret_timing() {
    assert_eq!(Command::JP_CC_U16(ConditionCode::C, 0).cycles(true), 4);
    assert_eq!(Command::JP_CC_U16(ConditionCode::C, 0).cycles(false), 3);
    assert_eq!(Command::RET_CC(ConditionCode::NC).cycles(true), 5);
    assert_eq!(Command::RET_CC(ConditionCode::NC).cycles(false), 2);
}

#[test]
fn restart_vectors() {
    assert_eq!(RstVec::X00.address(), 0x00);
    assert_eq!(RstVec::X08.address(), 0x08);
    assert_eq!(RstVec::X10.address(), 0x10);
    assert_eq!(RstVec::X18.address(), 0x18);
    assert_eq!(RstVec::X20.address(), 0x20);
    assert_eq!(RstVec::X28.address(), 0x28);
    assert_eq!(RstVec::X30.address(), 0x30);
    assert_eq!(RstVec::X38.address(), 0x38);
}
