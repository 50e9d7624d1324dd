use armv6_m_instruction_parser::conditions::Condition;
use armv6_m_instruction_parser::instructions::Operation;
use armv6_m_instruction_parser::parse;
use armv6_m_instruction_parser::registers::Register;
use armv6_m_instruction_parser::DecodeError;

/// Decode one halfword and insist on a 16-bit instruction.
fn d16(hw: u16) -> Operation {
    let bytes = hw.to_le_bytes();
    let inst = parse(&bytes).expect("halfword should decode");
    assert!(inst.is_16bit());
    assert!(!inst.is_32bit());
    inst.operation
}

fn e16(hw: u16) -> DecodeError {
    let bytes = hw.to_le_bytes();
    parse(&bytes).expect_err("halfword should be rejected")
}

#[test]
fn shift_add_sub_move_compare_group() {
    assert_eq!(
        d16(0x00D1),
        Operation::LSLImm { imm: 3, m: Register::R2, d: Register::R1 }
    );
    assert_eq!(
        d16(0x0848),
        Operation::LSRImm { imm: 1, m: Register::R1, d: Register::R0 }
    );
    assert_eq!(
        d16(0x10A3),
        Operation::ASRImm { imm: 2, m: Register::R4, d: Register::R3 }
    );
    assert_eq!(
        d16(0x1888),
        Operation::ADDReg { m: Register::R2, n: Register::R1, d: Register::R0 }
    );
    assert_eq!(
        d16(0x1A88),
        Operation::SUBReg { m: Register::R2, n: Register::R1, d: Register::R0 }
    );
    assert_eq!(
        d16(0x1D48),
        Operation::ADDImm { imm: 5, n: Register::R1, d: Register::R0 }
    );
    assert_eq!(
        d16(0x1F48),
        Operation::SUBImm { imm: 5, n: Register::R1, d: Register::R0 }
    );
    assert_eq!(d16(0x232A), Operation::MOVImm { d: Register::R3, imm: 42 });
    assert_eq!(d16(0x2A07), Operation::CMPImm { n: Register::R2, imm: 7 });
    assert_eq!(
        d16(0x31C8),
        Operation::ADDImm { imm: 200, n: Register::R1, d: Register::R1 }
    );
    assert_eq!(
        d16(0x39C8),
        Operation::SUBImm { imm: 200, n: Register::R1, d: Register::R1 }
    );
}

#[test]
fn zero_shift_amount_is_a_register_move() {
    assert_eq!(
        d16(0x0011),
        Operation::MOVReg { set_flags: true, m: Register::R2, d: Register::R1 }
    );
}

#[test]
fn data_processing_group() {
    assert_eq!(d16(0x4008), Operation::ANDReg { m: Register::R1, dn: Register::R0 });
    assert_eq!(d16(0x4048), Operation::EORReg { m: Register::R1, dn: Register::R0 });
    assert_eq!(d16(0x4088), Operation::LSLReg { m: Register::R1, dn: Register::R0 });
    assert_eq!(d16(0x40C8), Operation::LSRReg { m: Register::R1, dn: Register::R0 });
    assert_eq!(d16(0x4108), Operation::ASRReg { m: Register::R1, dn: Register::R0 });
    assert_eq!(
        d16(0x4148),
        Operation::ADCReg { m: Register::R1, n: Register::R0, d: Register::R0 }
    );
    assert_eq!(d16(0x4188), Operation::SBCReg { m: Register::R1, dn: Register::R0 });
    assert_eq!(d16(0x41C8), Operation::RORReg { m: Register::R1, dn: Register::R0 });
    assert_eq!(d16(0x4208), Operation::TSTReg { m: Register::R1, n: Register::R0 });
    assert_eq!(d16(0x4248), Operation::RSBImm { n: Register::R1, d: Register::R0 });
    assert_eq!(d16(0x4288), Operation::CMPReg { m: Register::R1, n: Register::R0 });
    assert_eq!(d16(0x42C8), Operation::CMNReg { m: Register::R1, n: Register::R0 });
    assert_eq!(d16(0x4308), Operation::ORRReg { m: Register::R1, dn: Register::R0 });
    assert_eq!(d16(0x4348), Operation::MUL { n: Register::R1, dm: Register::R0 });
    assert_eq!(d16(0x4388), Operation::BICReg { m: Register::R1, dn: Register::R0 });
    assert_eq!(d16(0x43C8), Operation::MVNReg { m: Register::R1, d: Register::R0 });
}

#[test]
fn special_data_and_branch_exchange_group() {
    // Neither operand is SP: the general high-register add.
    assert_eq!(
        d16(0x4490),
        Operation::ADDReg { m: Register::R2, n: Register::R8, d: Register::R8 }
    );
    // The source is SP.
    assert_eq!(d16(0x4469), Operation::ADDRegSP { d: Register::R1, m: Register::R1 });
    // The destination is SP.
    assert_eq!(d16(0x449D), Operation::ADDRegSP { d: Register::SP, m: Register::R3 });
    // The architecturally unpredictable slot.
    assert_eq!(e16(0x4500), DecodeError::UnsupportedEncoding);
    assert_eq!(d16(0x45C8), Operation::CMPReg { m: Register::R9, n: Register::R8 });
    assert_eq!(
        d16(0x4688),
        Operation::MOVReg { set_flags: false, m: Register::R1, d: Register::R8 }
    );
    assert_eq!(d16(0x4770), Operation::BX { m: Register::LR });
    assert_eq!(d16(0x4798), Operation::BLXReg { m: Register::R3 });
}

#[test]
fn literal_pool_and_address_generation() {
    assert_eq!(d16(0x4D04), Operation::LDRLiteral { t: Register::R5, imm: 16 });
    assert_eq!(d16(0xA208), Operation::ADR { d: Register::R2, imm: 32 });
    assert_eq!(d16(0xAA08), Operation::ADDImmSP { d: Register::R2, imm: 32 });
}

#[test]
fn load_store_register_offset_group() {
    assert_eq!(
        d16(0x5088),
        Operation::STRReg { m: Register::R2, n: Register::R1, t: Register::R0 }
    );
    assert_eq!(
        d16(0x5288),
        Operation::STRHReg { m: Register::R2, n: Register::R1, t: Register::R0 }
    );
    assert_eq!(
        d16(0x5488),
        Operation::STRBReg { m: Register::R2, n: Register::R1, t: Register::R0 }
    );
    assert_eq!(
        d16(0x5688),
        Operation::LDRSBReg { m: Register::R2, n: Register::R1, t: Register::R0 }
    );
    assert_eq!(
        d16(0x5888),
        Operation::LDRReg { m: Register::R2, n: Register::R1, t: Register::R0 }
    );
    assert_eq!(
        d16(0x5A88),
        Operation::LDRHReg { m: Register::R2, n: Register::R1, t: Register::R0 }
    );
    assert_eq!(
        d16(0x5C88),
        Operation::LDRBReg { m: Register::R2, n: Register::R1, t: Register::R0 }
    );
    assert_eq!(
        d16(0x5E88),
        Operation::LDRSH { m: Register::R2, n: Register::R1, t: Register::R0 }
    );
}

#[test]
fn load_store_immediate_offset_group() {
    // Word offsets are stored in word units, scaled by four.
    assert_eq!(d16(0x6048), Operation::STRImm { imm: 4, n: Register::R1, t: Register::R0 });
    assert_eq!(d16(0x6848), Operation::LDRImm { imm: 4, n: Register::R1, t: Register::R0 });
    // Byte offsets are unscaled.
    assert_eq!(d16(0x70C8), Operation::STRBImm { imm: 3, n: Register::R1, t: Register::R0 });
    assert_eq!(d16(0x78C8), Operation::LDRBImm { imm: 3, n: Register::R1, t: Register::R0 });
    // Halfword offsets are scaled by two.
    assert_eq!(d16(0x80C8), Operation::STRHImm { imm: 6, n: Register::R1, t: Register::R0 });
    assert_eq!(d16(0x88C8), Operation::LDRHImm { imm: 6, n: Register::R1, t: Register::R0 });
    // Stack-pointer-relative forms, scaled by four.
    assert_eq!(d16(0x9202), Operation::STRImm { imm: 8, n: Register::SP, t: Register::R2 });
    assert_eq!(d16(0x9A02), Operation::LDRImm { imm: 8, n: Register::SP, t: Register::R2 });
}

#[test]
fn miscellaneous_group() {
    assert_eq!(d16(0xB006), Operation::ADDImmSP { d: Register::SP, imm: 24 });
    assert_eq!(d16(0xB086), Operation::SUBImmSP { imm: 24 });
    assert_eq!(d16(0xB208), Operation::SXTH { m: Register::R1, d: Register::R0 });
    assert_eq!(d16(0xB248), Operation::SXTB { m: Register::R1, d: Register::R0 });
    assert_eq!(d16(0xB288), Operation::UXTH { m: Register::R1, d: Register::R0 });
    assert_eq!(d16(0xB2C8), Operation::UXTB { m: Register::R1, d: Register::R0 });
    assert_eq!(d16(0xB672), Operation::CPS { im: true });
    assert_eq!(d16(0xB662), Operation::CPS { im: false });
    assert_eq!(d16(0xBA08), Operation::REV { m: Register::R1, d: Register::R0 });
    assert_eq!(d16(0xBA48), Operation::REV16 { m: Register::R1, d: Register::R0 });
    assert_eq!(d16(0xBAC8), Operation::REVSH { m: Register::R1, d: Register::R0 });
    assert_eq!(d16(0xBEAB), Operation::BKPT { imm: 0xAB });
    // A slot the architecture leaves undefined within this group.
    assert_eq!(e16(0xB100), DecodeError::UnsupportedEncoding);
}

#[test]
fn push_and_pop_fold_in_the_high_bit() {
    assert_eq!(
        d16(0xB501),
        Operation::PUSH { reg_list: vec![Register::R0, Register::LR] }
    );
    assert_eq!(
        d16(0xBD01),
        Operation::POP { reg_list: vec![Register::R0, Register::PC] }
    );
    assert_eq!(d16(0xB400), Operation::PUSH { reg_list: vec![] });
}

#[test]
fn hint_group() {
    assert_eq!(d16(0xBF00), Operation::NOP);
    assert_eq!(d16(0xBF10), Operation::YIELD);
    assert_eq!(d16(0xBF20), Operation::WFE);
    assert_eq!(d16(0xBF30), Operation::WFI);
    assert_eq!(d16(0xBF40), Operation::SEV);
    // A hint with a non-zero low nibble is rejected.
    assert_eq!(e16(0xBF01), DecodeError::UnsupportedEncoding);
    // A hint selector past the defined set is rejected.
    assert_eq!(e16(0xBF50), DecodeError::UnsupportedEncoding);
}

#[test]
fn store_and_load_multiple() {
    assert_eq!(
        d16(0xC006),
        Operation::STM { n: Register::R0, reg_list: vec![Register::R1, Register::R2] }
    );
    assert_eq!(
        d16(0xC806),
        Operation::LDM { n: Register::R0, reg_list: vec![Register::R1, Register::R2] }
    );
}

#[test]
fn conditional_branch_group() {
    assert_eq!(d16(0xD004), Operation::B { cond: Condition::EQ, imm: 8 });
    assert_eq!(d16(0xDD04), Operation::B { cond: Condition::LE, imm: 8 });
    // A negative offset comes back sign-extended.
    assert_eq!(d16(0xD0FC), Operation::B { cond: Condition::EQ, imm: 0xFFFFFFF8 });
    // Condition nibble 14 marks the permanently undefined pattern.
    assert_eq!(e16(0xDE00), DecodeError::UnsupportedEncoding);
    // Condition nibble 15 is the supervisor call.
    assert_eq!(d16(0xDF2A), Operation::SVC { imm: 42 });
}

#[test]
fn unconditional_branch() {
    assert_eq!(d16(0xE000), Operation::B { cond: Condition::AL, imm: 0 });
    assert_eq!(d16(0xE7FF), Operation::B { cond: Condition::AL, imm: 0xFFFFFFFE });
}
