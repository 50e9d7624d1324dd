//! Dispatch tree for the 32-bit encodings.
//!
//! This architecture variant defines only the branch and
//! miscellaneous-control region of the 32-bit opcode space; every other
//! region is rejected as unsupported.

use vstd::prelude::*;

use crate::DecodeError;
use crate::instructions::{operation_result_models, Operation, OperationModel};
use crate::registers::{register_for_code, register_of, special_register_of, SpecialRegister};
use crate::{lemma_u32_mask_bound, sign_extend_u32, sign_extended};

verus! {

/// The branch-with-link offset assembled from its five bitfields
/// `S`, `J1`, `J2`, `imm10` and `imm11`: the 25-bit value
/// `S:I1:I2:imm10:imm11:0` with `I1 = NOT(J1 XOR S)` and
/// `I2 = NOT(J2 XOR S)`, sign-extended to the full word.
pub open spec fn bl_offset(input: u32) -> u32 {
    let s = (input >> 26) & 0x1;
    let j1 = (input >> 13) & 0x1;
    let j2 = (input >> 11) & 0x1;
    let i1 = !(j1 ^ s) & 0x1;
    let i2 = !(j2 ^ s) & 0x1;
    let imm10 = (input >> 16) & 0x3ff;
    let imm11 = input & 0x7ff;
    sign_extended((s << 24) | (i1 << 23) | (i2 << 22) | (imm10 << 12) | (imm11 << 1), 25)
}

/// What the miscellaneous-control sub-tree decodes a word to: one of the
/// three barrier forms selected by bits 7..4, each carrying its 4-bit
/// option code.
pub open spec fn spec_misc_ctrl(input: u32) -> Result<OperationModel, DecodeError> {
    let op = (input >> 4) & 0xf;
    if op == 0b0100 {
        Ok(OperationModel::Plain(Operation::DSB { option: (input & 0xf) as u8 }))
    } else if op == 0b0101 {
        Ok(OperationModel::Plain(Operation::DMB { option: (input & 0xf) as u8 }))
    } else if op == 0b0110 {
        Ok(OperationModel::Plain(Operation::ISB { option: (input & 0xf) as u8 }))
    } else {
        Err(DecodeError::UnsupportedEncoding)
    }
}

/// What the branch and miscellaneous-control region decodes a word to,
/// dispatching on `op1` (bits 26..20) and `op2` (bits 14..12).
pub open spec fn spec_branch_misc_ctrl(input: u32) -> Result<OperationModel, DecodeError> {
    let op1 = (input >> 20) & 0x7f;
    let op2 = (input >> 12) & 0x7;
    if (op2 == 0b000 || op2 == 0b010) && (op1 == 0b0111000 || op1 == 0b0111001) {
        match special_register_of((input & 0xff) as int) {
            Some(sysm) => Ok(OperationModel::Plain(Operation::MSRReg {
                n: register_of(((input >> 16) & 0xf) as int),
                sysm,
            })),
            None => Err(DecodeError::InvalidSpecialRegister),
        }
    } else if (op2 == 0b000 || op2 == 0b010) && op1 == 0b0111011 {
        spec_misc_ctrl(input)
    } else if (op2 == 0b000 || op2 == 0b010) && (op1 == 0b0111110 || op1 == 0b0111111) {
        match special_register_of((input & 0xff) as int) {
            Some(sysm) => Ok(OperationModel::Plain(Operation::MRS {
                d: register_of(((input >> 8) & 0xf) as int),
                sysm,
            })),
            None => Err(DecodeError::InvalidSpecialRegister),
        }
    } else if op2 == 0b111 && op1 == 0b1111111 {
        Err(DecodeError::UnsupportedEncoding)
    } else if op2 == 0b101 || op2 == 0b111 {
        Ok(OperationModel::Plain(Operation::BL { imm: bl_offset(input) }))
    } else {
        Err(DecodeError::UnsupportedEncoding)
    }
}

/// What a 32-bit word decodes to: only the branch and
/// miscellaneous-control region (`op1 == 0b10`, `op == 1`) is defined.
pub open spec fn spec_operation_32bit(input: u32) -> Result<OperationModel, DecodeError> {
    let op1 = (input >> 27) & 0x3;
    let op = (input >> 15) & 0x1;
    if op1 == 0b10 && op == 0b1 {
        spec_branch_misc_ctrl(input)
    } else {
        Err(DecodeError::UnsupportedEncoding)
    }
}

/// Whether an operation is one the branch and miscellaneous-control
/// opcode space defines: the only operations a 32-bit instruction can
/// carry.
pub open spec fn is_branch_misc_ctrl_operation(m: OperationModel) -> bool {
    m matches OperationModel::Plain(op) && (op is MSRReg || op is MRS || op is DSB || op is DMB
        || op is ISB || op is BL)
}

/// Every successful 32-bit decode stays inside the branch and
/// miscellaneous-control subset.
pub proof fn lemma_32bit_region(input: u32)
    ensures
        spec_operation_32bit(input) matches Ok(m) ==> is_branch_misc_ctrl_operation(m),
{
}

/// Decode the miscellaneous-control sub-tree: the three barrier forms.
pub fn parse_misc_ctrl(input: u32) -> (r: Result<Operation, DecodeError>)
    ensures
        operation_result_models(r, spec_misc_ctrl(input)),
{
    let op = (input >> 4) & 0xf;
    if op == 0b0100 {
        Ok(Operation::DSB { option: (input & 0xf) as u8 })
    } else if op == 0b0101 {
        Ok(Operation::DMB { option: (input & 0xf) as u8 })
    } else if op == 0b0110 {
        Ok(Operation::ISB { option: (input & 0xf) as u8 })
    } else {
        Err(DecodeError::UnsupportedEncoding)
    }
}

/// Decode the branch and miscellaneous-control region: move to or from a
/// system register, a barrier, the permanently undefined pattern, or
/// branch with link.
pub fn parse_branch_misc_ctrl(input: u32) -> (r: Result<Operation, DecodeError>)
    ensures
        operation_result_models(r, spec_branch_misc_ctrl(input)),
{
    proof {
        lemma_u32_mask_bound();
    }
    let op1 = (input >> 20) & 0x7f;
    let op2 = (input >> 12) & 0x7;
    if (op2 == 0b000 || op2 == 0b010) && (op1 == 0b0111000 || op1 == 0b0111001) {
        let rn = register_for_code(((input >> 16) & 0xf) as u8);
        match SpecialRegister::try_from((input & 0xff) as u8) {
            Ok(sysm) => Ok(Operation::MSRReg { n: rn, sysm }),
            Err(e) => Err(e),
        }
    } else if (op2 == 0b000 || op2 == 0b010) && op1 == 0b0111011 {
        parse_misc_ctrl(input)
    } else if (op2 == 0b000 || op2 == 0b010) && (op1 == 0b0111110 || op1 == 0b0111111) {
        let rd = register_for_code(((input >> 8) & 0xf) as u8);
        match SpecialRegister::try_from((input & 0xff) as u8) {
            Ok(sysm) => Ok(Operation::MRS { d: rd, sysm }),
            Err(e) => Err(e),
        }
    } else if op2 == 0b111 && op1 == 0b1111111 {
        // Permanently undefined pattern.
        Err(DecodeError::UnsupportedEncoding)
    } else if op2 == 0b101 || op2 == 0b111 {
        let s = (input >> 26) & 0x1;
        let j1 = (input >> 13) & 0x1;
        let j2 = (input >> 11) & 0x1;
        let i1 = !(j1 ^ s) & 0x1;
        let i2 = !(j2 ^ s) & 0x1;
        let imm10 = (input >> 16) & 0x3ff;
        let imm11 = input & 0x7ff;
        let imm = sign_extend_u32((s << 24) | (i1 << 23) | (i2 << 22) | (imm10 << 12) | (imm11 << 1), 25);
        Ok(Operation::BL { imm })
    } else {
        Err(DecodeError::UnsupportedEncoding)
    }
}

/// Decode one 32-bit word, rejecting every region outside the branch and
/// miscellaneous-control space.
pub fn parse_32bit_operation(input: u32) -> (r: Result<Operation, DecodeError>)
    ensures
        operation_result_models(r, spec_operation_32bit(input)),
{
    let op1 = (input >> 27) & 0x3;
    let op = (input >> 15) & 0x1;
    if op1 == 0b10 && op == 0b1 {
        parse_branch_misc_ctrl(input)
    } else {
        Err(DecodeError::UnsupportedEncoding)
    }
}

} // verus!
