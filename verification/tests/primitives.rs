use armv6_m_instruction_parser::conditions::Condition;
use armv6_m_instruction_parser::instructions::{Instruction, InstructionWidth, Operation};
use armv6_m_instruction_parser::registers::{
    register_list_from_bit_array, Register, SpecialRegister,
};
use armv6_m_instruction_parser::DecodeError;

#[test]
fn sign_extend_u16() {
    assert_eq!(0xffffffff, armv6_m_instruction_parser::sign_extend_u16(0x1, 1));
    assert_eq!(0x1, armv6_m_instruction_parser::sign_extend_u16(0x1, 2));
    assert_eq!(0xfffffff9, armv6_m_instruction_parser::sign_extend_u16(0x9, 4));
    assert_eq!(0x00000009, armv6_m_instruction_parser::sign_extend_u16(0x9, 5));
}

#[test]
fn sign_extend_u32() {
    assert_eq!(0xffffffff, armv6_m_instruction_parser::sign_extend_u32(0x1, 1));
    assert_eq!(0x1, armv6_m_instruction_parser::sign_extend_u32(0x1, 2));
    assert_eq!(0xfffffff9, armv6_m_instruction_parser::sign_extend_u32(0x9, 4));
    assert_eq!(0x00000009, armv6_m_instruction_parser::sign_extend_u32(0x9, 5));
}

#[test]
fn sign_extend_full_width_is_identity() {
    assert_eq!(0xdeadbeef, armv6_m_instruction_parser::sign_extend_u32(0xdeadbeef, 32));
    assert_eq!(0xffff8000, armv6_m_instruction_parser::sign_extend_u16(0x8000, 16));
    assert_eq!(0x7fff, armv6_m_instruction_parser::sign_extend_u16(0x7fff, 16));
}

#[test]
fn from_u8_to_condition() {
    for n in 0..15 {
        let cond: Condition = Condition::try_from(n).unwrap();
        assert_eq!(cond as u8, n)
    }

    assert_eq!(Condition::try_from(15), Err(DecodeError::InvalidCondition));
}

#[test]
fn condition_code_boundaries() {
    assert_eq!(Condition::try_from(14), Ok(Condition::AL));
    assert_eq!(Condition::try_from(255), Err(DecodeError::InvalidCondition));
    assert_eq!(Condition::try_from(13).unwrap().number(), 13);
}

#[test]
fn from_u8_to_register() {
    assert_eq!(Register::try_from(0), Ok(Register::R0));
    assert_eq!(Register::try_from(1), Ok(Register::R1));
    assert_eq!(Register::try_from(2), Ok(Register::R2));
    assert_eq!(Register::try_from(3), Ok(Register::R3));
    assert_eq!(Register::try_from(4), Ok(Register::R4));
    assert_eq!(Register::try_from(5), Ok(Register::R5));
    assert_eq!(Register::try_from(6), Ok(Register::R6));
    assert_eq!(Register::try_from(7), Ok(Register::R7));
    assert_eq!(Register::try_from(8), Ok(Register::R8));
    assert_eq!(Register::try_from(9), Ok(Register::R9));
    assert_eq!(Register::try_from(10), Ok(Register::R10));
    assert_eq!(Register::try_from(11), Ok(Register::R11));
    assert_eq!(Register::try_from(12), Ok(Register::R12));
    assert_eq!(Register::try_from(13), Ok(Register::SP));
    assert_eq!(Register::try_from(14), Ok(Register::LR));
    assert_eq!(Register::try_from(15), Ok(Register::PC));
    assert_eq!(Register::try_from(16), Err(DecodeError::InvalidRegister));
}

#[test]
fn register_round_trip() {
    for n in 0..16 {
        assert_eq!(Register::try_from(n).unwrap().number(), n);
    }
}

#[test]
fn special_register_round_trip() {
    for n in [0u8, 1, 2, 3, 5, 6, 7, 8, 9, 16, 20] {
        assert_eq!(SpecialRegister::try_from(n).unwrap().number(), n);
    }
    for n in [4u8, 10, 15, 17, 21, 255] {
        assert_eq!(SpecialRegister::try_from(n), Err(DecodeError::InvalidSpecialRegister));
    }
}

#[test]
fn register_list() {
    assert_eq!(register_list_from_bit_array(0), vec![]);
    assert_eq!(register_list_from_bit_array(0b1), vec![Register::R0]);
    assert_eq!(
        register_list_from_bit_array(0b111),
        vec![Register::R0, Register::R1, Register::R2]
    );
    assert_eq!(
        register_list_from_bit_array(0b1000000000000000),
        vec![Register::PC]
    );
    assert_eq!(
        register_list_from_bit_array(0b1110000000000000),
        vec![Register::SP, Register::LR, Register::PC]
    );
    assert_eq!(
        register_list_from_bit_array(0xffff),
        vec![
            Register::R0,
            Register::R1,
            Register::R2,
            Register::R3,
            Register::R4,
            Register::R5,
            Register::R6,
            Register::R7,
            Register::R8,
            Register::R9,
            Register::R10,
            Register::R11,
            Register::R12,
            Register::SP,
            Register::LR,
            Register::PC
        ]
    );
}

#[test]
fn instruction_size() {
    let instruction_32 = Instruction {
        width: InstructionWidth::Bit32,
        operation: Operation::NOP,
    };
    assert_eq!(instruction_32.is_32bit(), true);
    assert_eq!(instruction_32.is_16bit(), false);

    let instruction_16 = Instruction {
        width: InstructionWidth::Bit16,
        operation: Operation::NOP,
    };
    assert_eq!(instruction_16.is_32bit(), false);
    assert_eq!(instruction_16.is_16bit(), true);
}
