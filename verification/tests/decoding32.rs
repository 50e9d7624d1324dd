use armv6_m_instruction_parser::instructions::Operation;
use armv6_m_instruction_parser::parse;
use armv6_m_instruction_parser::registers::{Register, SpecialRegister};
use armv6_m_instruction_parser::DecodeError;

/// Decode two halfwords and insist on a 32-bit instruction.
fn d32(hw1: u16, hw2: u16) -> Operation {
    let lo = hw1.to_le_bytes();
    let hi = hw2.to_le_bytes();
    let bytes = [lo[0], lo[1], hi[0], hi[1]];
    let inst = parse(&bytes).expect("word should decode");
    assert!(inst.is_32bit());
    assert!(!inst.is_16bit());
    inst.operation
}

fn e32(hw1: u16, hw2: u16) -> DecodeError {
    let lo = hw1.to_le_bytes();
    let hi = hw2.to_le_bytes();
    let bytes = [lo[0], lo[1], hi[0], hi[1]];
    parse(&bytes).expect_err("word should be rejected")
}

#[test]
fn move_to_special_register() {
    assert_eq!(
        d32(0xF380, 0x8808),
        Operation::MSRReg { n: Register::R0, sysm: SpecialRegister::MSP }
    );
    assert_eq!(
        d32(0xF381, 0x8814),
        Operation::MSRReg { n: Register::R1, sysm: SpecialRegister::CONTROL }
    );
}

#[test]
fn move_from_special_register() {
    assert_eq!(
        d32(0xF3EF, 0x8110),
        Operation::MRS { d: Register::R1, sysm: SpecialRegister::PRIMASK }
    );
    assert_eq!(
        d32(0xF3EF, 0x8200),
        Operation::MRS { d: Register::R2, sysm: SpecialRegister::APSR }
    );
}

#[test]
fn special_register_codes_outside_the_sparse_set_are_rejected() {
    assert_eq!(e32(0xF380, 0x88FF), DecodeError::InvalidSpecialRegister);
    assert_eq!(e32(0xF3EF, 0x8104), DecodeError::InvalidSpecialRegister);
    assert_eq!(SpecialRegister::try_from(4), Err(DecodeError::InvalidSpecialRegister));
    assert_eq!(SpecialRegister::try_from(20), Ok(SpecialRegister::CONTROL));
}

#[test]
fn barriers_carry_their_option_code() {
    assert_eq!(d32(0xF3BF, 0x8F4F), Operation::DSB { option: 15 });
    assert_eq!(d32(0xF3BF, 0x8F5F), Operation::DMB { option: 15 });
    assert_eq!(d32(0xF3BF, 0x8F62), Operation::ISB { option: 2 });
    // A miscellaneous-control selector outside the three barriers.
    assert_eq!(e32(0xF3BF, 0x8F7F), DecodeError::UnsupportedEncoding);
}

#[test]
fn permanently_undefined_word_is_rejected() {
    assert_eq!(e32(0xF7F0, 0xF000), DecodeError::UnsupportedEncoding);
}

#[test]
fn words_outside_the_branch_and_control_region_are_rejected() {
    // The wide prefix with bit 15 of the second halfword clear.
    assert_eq!(e32(0xF000, 0x0000), DecodeError::UnsupportedEncoding);
    // The 0b11101 prefix selects a region this decoder does not define.
    assert_eq!(e32(0xE800, 0x0000), DecodeError::UnsupportedEncoding);
}

#[test]
fn branch_with_link_offsets() {
    // All five immediate fields at zero with J1 = J2 = 1 give offset 0.
    assert_eq!(d32(0xF000, 0xF800), Operation::BL { imm: 0 });
    // A small forward offset.
    assert_eq!(d32(0xF000, 0xF802), Operation::BL { imm: 4 });
    // S = 1 with every other field at zero is the most negative offset:
    // -2^24 once the assembled field is doubled by the trailing zero bit.
    assert_eq!(d32(0xF400, 0xD000), Operation::BL { imm: 0xFF00_0000 });
    assert_eq!(0xFF00_0000u32 as i32, -(1 << 24));
    // S = 0 with J1 = J2 = 0 sets both intermediate bits.
    assert_eq!(d32(0xF000, 0xD000), Operation::BL { imm: 0x00C0_0000 });
}
