//! Dispatch tree for the 16-bit encodings.
//!
//! A first dispatch on bits 15..10 partitions the opcode space into the
//! architecture's format groups; each group is a further dispatch over a
//! sub-field that terminates in operand extraction.

use vstd::prelude::*;

use crate::conditions::{condition_of, Condition};
use crate::instructions::{operation_result_models, Operation, OperationModel};
use crate::registers::{
    register_for_code, register_list_from_bit_array, register_list_view, register_of, Register,
};
use crate::DecodeError;
use crate::{lemma_u16_mask_bound, lemma_u16_or_bound, sign_extend_u16, sign_extended};

verus! {

/// What the shift-immediate, add, subtract, move and compare group
/// (bits 15..10 at or below 0b001111) decodes a halfword to.
pub open spec fn spec_arith(input: u16) -> Result<OperationModel, DecodeError> {
    let opcode = (input >> 9) & 0x1f;
    if opcode <= 0b00011 {
        let imm = (input >> 6) & 0x1f;
        let m = register_of(((input >> 3) & 0x7) as int);
        let d = register_of((input & 0x7) as int);
        if imm > 0 {
            Ok(OperationModel::Plain(Operation::LSLImm { imm: imm as u32, m, d }))
        } else {
            Ok(OperationModel::Plain(Operation::MOVReg { set_flags: true, m, d }))
        }
    } else if opcode <= 0b00111 {
        Ok(OperationModel::Plain(Operation::LSRImm {
            imm: ((input >> 6) & 0x1f) as u32,
            m: register_of(((input >> 3) & 0x7) as int),
            d: register_of((input & 0x7) as int),
        }))
    } else if opcode <= 0b01011 {
        Ok(OperationModel::Plain(Operation::ASRImm {
            imm: ((input >> 6) & 0x1f) as u32,
            m: register_of(((input >> 3) & 0x7) as int),
            d: register_of((input & 0x7) as int),
        }))
    } else if opcode == 0b01100 {
        Ok(OperationModel::Plain(Operation::ADDReg {
            m: register_of(((input >> 6) & 0x7) as int),
            n: register_of(((input >> 3) & 0x7) as int),
            d: register_of((input & 0x7) as int),
        }))
    } else if opcode == 0b01101 {
        Ok(OperationModel::Plain(Operation::SUBReg {
            m: register_of(((input >> 6) & 0x7) as int),
            n: register_of(((input >> 3) & 0x7) as int),
            d: register_of((input & 0x7) as int),
        }))
    } else if opcode == 0b01110 {
        Ok(OperationModel::Plain(Operation::ADDImm {
            imm: ((input >> 6) & 0x7) as u32,
            n: register_of(((input >> 3) & 0x7) as int),
            d: register_of((input & 0x7) as int),
        }))
    } else if opcode == 0b01111 {
        Ok(OperationModel::Plain(Operation::SUBImm {
            imm: ((input >> 6) & 0x7) as u32,
            n: register_of(((input >> 3) & 0x7) as int),
            d: register_of((input & 0x7) as int),
        }))
    } else if opcode <= 0b10011 {
        Ok(OperationModel::Plain(Operation::MOVImm {
            d: register_of(((input >> 8) & 0x7) as int),
            imm: (input & 0xff) as u32,
        }))
    } else if opcode <= 0b10111 {
        Ok(OperationModel::Plain(Operation::CMPImm {
            n: register_of(((input >> 8) & 0x7) as int),
            imm: (input & 0xff) as u32,
        }))
    } else if opcode <= 0b11011 {
        let dn = register_of(((input >> 8) & 0x7) as int);
        Ok(OperationModel::Plain(Operation::ADDImm { imm: (input & 0xff) as u32, n: dn, d: dn }))
    } else {
        let dn = register_of(((input >> 8) & 0x7) as int);
        Ok(OperationModel::Plain(Operation::SUBImm { imm: (input & 0xff) as u32, n: dn, d: dn }))
    }
}

/// Decode the shift-immediate, add, subtract, move and compare group.
/// A zero shift amount on the logical-shift-left-immediate encoding is
/// architecturally a plain register move, chosen here by the decoded
/// immediate value, not by the opcode bits.
pub fn parse_arith_instructions(input: u16) -> (r: Result<Operation, DecodeError>)
    ensures
        operation_result_models(r, spec_arith(input)),
{
    proof {
        lemma_u16_mask_bound();
    }
    let opcode = (input >> 9) & 0x1f;
    if opcode <= 0b00011 {
        let imm = (input >> 6) & 0x1f;
        let m = register_for_code(((input >> 3) & 0x7) as u8);
        let d = register_for_code((input & 0x7) as u8);
        if imm > 0 {
            Ok(Operation::LSLImm { imm: imm as u32, m, d })
        } else {
            Ok(Operation::MOVReg { set_flags: true, m, d })
        }
    } else if opcode <= 0b00111 {
        Ok(Operation::LSRImm {
            imm: ((input >> 6) & 0x1f) as u32,
            m: register_for_code(((input >> 3) & 0x7) as u8),
            d: register_for_code((input & 0x7) as u8),
        })
    } else if opcode <= 0b01011 {
        Ok(Operation::ASRImm {
            imm: ((input >> 6) & 0x1f) as u32,
            m: register_for_code(((input >> 3) & 0x7) as u8),
            d: register_for_code((input & 0x7) as u8),
        })
    } else if opcode == 0b01100 {
        Ok(Operation::ADDReg {
            m: register_for_code(((input >> 6) & 0x7) as u8),
            n: register_for_code(((input >> 3) & 0x7) as u8),
            d: register_for_code((input & 0x7) as u8),
        })
    } else if opcode == 0b01101 {
        Ok(Operation::SUBReg {
            m: register_for_code(((input >> 6) & 0x7) as u8),
            n: register_for_code(((input >> 3) & 0x7) as u8),
            d: register_for_code((input & 0x7) as u8),
        })
    } else if opcode == 0b01110 {
        Ok(Operation::ADDImm {
            imm: ((input >> 6) & 0x7) as u32,
            n: register_for_code(((input >> 3) & 0x7) as u8),
            d: register_for_code((input & 0x7) as u8),
        })
    } else if opcode == 0b01111 {
        Ok(Operation::SUBImm {
            imm: ((input >> 6) & 0x7) as u32,
            n: register_for_code(((input >> 3) & 0x7) as u8),
            d: register_for_code((input & 0x7) as u8),
        })
    } else if opcode <= 0b10011 {
        Ok(Operation::MOVImm {
            d: register_for_code(((input >> 8) & 0x7) as u8),
            imm: (input & 0xff) as u32,
        })
    } else if opcode <= 0b10111 {
        Ok(Operation::CMPImm {
            n: register_for_code(((input >> 8) & 0x7) as u8),
            imm: (input & 0xff) as u32,
        })
    } else if opcode <= 0b11011 {
        let dn = register_for_code(((input >> 8) & 0x7) as u8);
        Ok(Operation::ADDImm { imm: (input & 0xff) as u32, n: dn, d: dn })
    } else {
        let dn = register_for_code(((input >> 8) & 0x7) as u8);
        Ok(Operation::SUBImm { imm: (input & 0xff) as u32, n: dn, d: dn })
    }
}

/// What the register-to-register data-processing group decodes a
/// halfword to, by its 4-bit opcode in bits 9..6.
pub open spec fn spec_data_processing(input: u16) -> Result<OperationModel, DecodeError> {
    let opcode = (input >> 6) & 0xf;
    let m = register_of(((input >> 3) & 0x7) as int);
    let low = register_of((input & 0x7) as int);
    if opcode == 0b0000 {
        Ok(OperationModel::Plain(Operation::ANDReg { m, dn: low }))
    } else if opcode == 0b0001 {
        Ok(OperationModel::Plain(Operation::EORReg { m, dn: low }))
    } else if opcode == 0b0010 {
        Ok(OperationModel::Plain(Operation::LSLReg { m, dn: low }))
    } else if opcode == 0b0011 {
        Ok(OperationModel::Plain(Operation::LSRReg { m, dn: low }))
    } else if opcode == 0b0100 {
        Ok(OperationModel::Plain(Operation::ASRReg { m, dn: low }))
    } else if opcode == 0b0101 {
        Ok(OperationModel::Plain(Operation::ADCReg { m, n: low, d: low }))
    } else if opcode == 0b0110 {
        Ok(OperationModel::Plain(Operation::SBCReg { m, dn: low }))
    } else if opcode == 0b0111 {
        Ok(OperationModel::Plain(Operation::RORReg { m, dn: low }))
    } else if opcode == 0b1000 {
        Ok(OperationModel::Plain(Operation::TSTReg { m, n: low }))
    } else if opcode == 0b1001 {
        Ok(OperationModel::Plain(Operation::RSBImm { n: m, d: low }))
    } else if opcode == 0b1010 {
        Ok(OperationModel::Plain(Operation::CMPReg { m, n: low }))
    } else if opcode == 0b1011 {
        Ok(OperationModel::Plain(Operation::CMNReg { m, n: low }))
    } else if opcode == 0b1100 {
        Ok(OperationModel::Plain(Operation::ORRReg { m, dn: low }))
    } else if opcode == 0b1101 {
        Ok(OperationModel::Plain(Operation::MUL { n: m, dm: low }))
    } else if opcode == 0b1110 {
        Ok(OperationModel::Plain(Operation::BICReg { m, dn: low }))
    } else {
        Ok(OperationModel::Plain(Operation::MVNReg { m, d: low }))
    }
}

/// Decode the register-to-register data-processing group.
pub fn parse_data_processing_instruction(input: u16) -> (r: Result<Operation, DecodeError>)
    ensures
        operation_result_models(r, spec_data_processing(input)),
{
    proof {
        lemma_u16_mask_bound();
    }
    let opcode = (input >> 6) & 0xf;
    let m = register_for_code(((input >> 3) & 0x7) as u8);
    let low = register_for_code((input & 0x7) as u8);
    if opcode == 0b0000 {
        Ok(Operation::ANDReg { m, dn: low })
    } else if opcode == 0b0001 {
        Ok(Operation::EORReg { m, dn: low })
    } else if opcode == 0b0010 {
        Ok(Operation::LSLReg { m, dn: low })
    } else if opcode == 0b0011 {
        Ok(Operation::LSRReg { m, dn: low })
    } else if opcode == 0b0100 {
        Ok(Operation::ASRReg { m, dn: low })
    } else if opcode == 0b0101 {
        Ok(Operation::ADCReg { m, n: low, d: low })
    } else if opcode == 0b0110 {
        Ok(Operation::SBCReg { m, dn: low })
    } else if opcode == 0b0111 {
        Ok(Operation::RORReg { m, dn: low })
    } else if opcode == 0b1000 {
        Ok(Operation::TSTReg { m, n: low })
    } else if opcode == 0b1001 {
        Ok(Operation::RSBImm { n: m, d: low })
    } else if opcode == 0b1010 {
        Ok(Operation::CMPReg { m, n: low })
    } else if opcode == 0b1011 {
        Ok(Operation::CMNReg { m, n: low })
    } else if opcode == 0b1100 {
        Ok(Operation::ORRReg { m, dn: low })
    } else if opcode == 0b1101 {
        Ok(Operation::MUL { n: m, dm: low })
    } else if opcode == 0b1110 {
        Ok(Operation::BICReg { m, dn: low })
    } else {
        Ok(Operation::MVNReg { m, d: low })
    }
}

/// What the special data-processing and branch-exchange group decodes a
/// halfword to.  Whether an add produces the general form or one of the
/// stack-pointer forms depends on which operand holds the stack-pointer
/// code, not on the opcode bits alone.
pub open spec fn spec_special_data_branch_exchange(input: u16) -> Result<
    OperationModel,
    DecodeError,
> {
    let opcode = (input >> 6) & 0xf;
    if opcode <= 0b0011 {
        let m = register_of(((input >> 3) & 0xf) as int);
        let dn = register_of(((input & 0x7) | ((input >> 4) & 0b1000)) as int);
        if dn == Register::SP || m == Register::SP {
            if m == Register::SP {
                Ok(OperationModel::Plain(Operation::ADDRegSP { d: dn, m: dn }))
            } else {
                Ok(OperationModel::Plain(Operation::ADDRegSP { d: Register::SP, m }))
            }
        } else {
            Ok(OperationModel::Plain(Operation::ADDReg { m, n: dn, d: dn }))
        }
    } else if opcode == 0b0100 {
        Err(DecodeError::UnsupportedEncoding)
    } else if opcode <= 0b0111 {
        Ok(OperationModel::Plain(Operation::CMPReg {
            m: register_of(((input >> 3) & 0xf) as int),
            n: register_of(((input & 0x7) | ((input >> 4) & 0b1000)) as int),
        }))
    } else if opcode <= 0b1011 {
        Ok(OperationModel::Plain(Operation::MOVReg {
            set_flags: false,
            m: register_of(((input >> 3) & 0xf) as int),
            d: register_of(((input & 0x7) | ((input >> 4) & 0b1000)) as int),
        }))
    } else if opcode <= 0b1101 {
        Ok(OperationModel::Plain(Operation::BX { m: register_of(((input >> 3) & 0xf) as int) }))
    } else {
        Ok(OperationModel::Plain(Operation::BLXReg {
            m: register_of(((input >> 3) & 0xf) as int),
        }))
    }
}

/// Decode the special data-processing and branch-exchange group.
pub fn parse_special_data_branch_exchange_instruction(input: u16) -> (r: Result<
    Operation,
    DecodeError,
>)
    ensures
        operation_result_models(r, spec_special_data_branch_exchange(input)),
{
    proof {
        lemma_u16_mask_bound();
        lemma_u16_or_bound();
    }
    let opcode = (input >> 6) & 0xf;
    if opcode <= 0b0011 {
        let m = register_for_code(((input >> 3) & 0xf) as u8);
        let dn = register_for_code(((input & 0x7) | ((input >> 4) & 0b1000)) as u8);
        if dn == Register::SP || m == Register::SP {
            if m == Register::SP {
                Ok(Operation::ADDRegSP { d: dn, m: dn })
            } else {
                Ok(Operation::ADDRegSP { d: Register::SP, m })
            }
        } else {
            Ok(Operation::ADDReg { m, n: dn, d: dn })
        }
    } else if opcode == 0b0100 {
        // Architecturally unpredictable.
        Err(DecodeError::UnsupportedEncoding)
    } else if opcode <= 0b0111 {
        Ok(Operation::CMPReg {
            m: register_for_code(((input >> 3) & 0xf) as u8),
            n: register_for_code(((input & 0x7) | ((input >> 4) & 0b1000)) as u8),
        })
    } else if opcode <= 0b1011 {
        Ok(Operation::MOVReg {
            set_flags: false,
            m: register_for_code(((input >> 3) & 0xf) as u8),
            d: register_for_code(((input & 0x7) | ((input >> 4) & 0b1000)) as u8),
        })
    } else if opcode <= 0b1101 {
        Ok(Operation::BX { m: register_for_code(((input >> 3) & 0xf) as u8) })
    } else {
        Ok(Operation::BLXReg { m: register_for_code(((input >> 3) & 0xf) as u8) })
    }
}

/// What the load/store group decodes a halfword to, by `op_a`
/// (bits 15..12) and `op_b` (bits 11..9).  Immediate offsets are stored
/// pre-multiplied by their access size.
pub open spec fn spec_load_store(input: u16) -> Result<OperationModel, DecodeError> {
    let op_a = (input >> 12) & 0xf;
    let op_b = (input >> 9) & 0x7;
    if op_a == 0b0101 {
        let m = register_of(((input >> 6) & 0x7) as int);
        let n = register_of(((input >> 3) & 0x7) as int);
        let t = register_of((input & 0x7) as int);
        if op_b == 0b000 {
            Ok(OperationModel::Plain(Operation::STRReg { m, n, t }))
        } else if op_b == 0b001 {
            Ok(OperationModel::Plain(Operation::STRHReg { m, n, t }))
        } else if op_b == 0b010 {
            Ok(OperationModel::Plain(Operation::STRBReg { m, n, t }))
        } else if op_b == 0b011 {
            Ok(OperationModel::Plain(Operation::LDRSBReg { m, n, t }))
        } else if op_b == 0b100 {
            Ok(OperationModel::Plain(Operation::LDRReg { m, n, t }))
        } else if op_b == 0b101 {
            Ok(OperationModel::Plain(Operation::LDRHReg { m, n, t }))
        } else if op_b == 0b110 {
            Ok(OperationModel::Plain(Operation::LDRBReg { m, n, t }))
        } else {
            Ok(OperationModel::Plain(Operation::LDRSH { m, n, t }))
        }
    } else if op_a == 0b0110 {
        let n = register_of(((input >> 3) & 0x7) as int);
        let t = register_of((input & 0x7) as int);
        let imm = ((input & 0x7c0) >> 4) as u32;
        if op_b <= 0b011 {
            Ok(OperationModel::Plain(Operation::STRImm { imm, n, t }))
        } else {
            Ok(OperationModel::Plain(Operation::LDRImm { imm, n, t }))
        }
    } else if op_a == 0b0111 {
        let n = register_of(((input >> 3) & 0x7) as int);
        let t = register_of((input & 0x7) as int);
        let imm = ((input & 0x7c0) >> 6) as u32;
        if op_b <= 0b011 {
            Ok(OperationModel::Plain(Operation::STRBImm { imm, n, t }))
        } else {
            Ok(OperationModel::Plain(Operation::LDRBImm { imm, n, t }))
        }
    } else if op_a == 0b1000 {
        let n = register_of(((input >> 3) & 0x7) as int);
        let t = register_of((input & 0x7) as int);
        let imm = ((input & 0x7c0) >> 5) as u32;
        if op_b <= 0b011 {
            Ok(OperationModel::Plain(Operation::STRHImm { imm, n, t }))
        } else {
            Ok(OperationModel::Plain(Operation::LDRHImm { imm, n, t }))
        }
    } else if op_a == 0b1001 {
        let t = register_of(((input >> 8) & 0x7) as int);
        let imm = ((input & 0xff) << 2) as u32;
        if op_b <= 0b011 {
            Ok(OperationModel::Plain(Operation::STRImm { imm, n: Register::SP, t }))
        } else {
            Ok(OperationModel::Plain(Operation::LDRImm { imm, n: Register::SP, t }))
        }
    } else {
        Err(DecodeError::UnsupportedEncoding)
    }
}

/// Decode the load/store group.
pub fn parse_load_store_instruction(input: u16) -> (r: Result<Operation, DecodeError>)
    ensures
        operation_result_models(r, spec_load_store(input)),
{
    proof {
        lemma_u16_mask_bound();
    }
    let op_a = (input >> 12) & 0xf;
    let op_b = (input >> 9) & 0x7;
    if op_a == 0b0101 {
        let m = register_for_code(((input >> 6) & 0x7) as u8);
        let n = register_for_code(((input >> 3) & 0x7) as u8);
        let t = register_for_code((input & 0x7) as u8);
        if op_b == 0b000 {
            Ok(Operation::STRReg { m, n, t })
        } else if op_b == 0b001 {
            Ok(Operation::STRHReg { m, n, t })
        } else if op_b == 0b010 {
            Ok(Operation::STRBReg { m, n, t })
        } else if op_b == 0b011 {
            Ok(Operation::LDRSBReg { m, n, t })
        } else if op_b == 0b100 {
            Ok(Operation::LDRReg { m, n, t })
        } else if op_b == 0b101 {
            Ok(Operation::LDRHReg { m, n, t })
        } else if op_b == 0b110 {
            Ok(Operation::LDRBReg { m, n, t })
        } else {
            Ok(Operation::LDRSH { m, n, t })
        }
    } else if op_a == 0b0110 {
        let n = register_for_code(((input >> 3) & 0x7) as u8);
        let t = register_for_code((input & 0x7) as u8);
        let imm = ((input & 0x7c0) >> 4) as u32;
        if op_b <= 0b011 {
            Ok(Operation::STRImm { imm, n, t })
        } else {
            Ok(Operation::LDRImm { imm, n, t })
        }
    } else if op_a == 0b0111 {
        let n = register_for_code(((input >> 3) & 0x7) as u8);
        let t = register_for_code((input & 0x7) as u8);
        let imm = ((input & 0x7c0) >> 6) as u32;
        if op_b <= 0b011 {
            Ok(Operation::STRBImm { imm, n, t })
        } else {
            Ok(Operation::LDRBImm { imm, n, t })
        }
    } else if op_a == 0b1000 {
        let n = register_for_code(((input >> 3) & 0x7) as u8);
        let t = register_for_code((input & 0x7) as u8);
        let imm = ((input & 0x7c0) >> 5) as u32;
        if op_b <= 0b011 {
            Ok(Operation::STRHImm { imm, n, t })
        } else {
            Ok(Operation::LDRHImm { imm, n, t })
        }
    } else if op_a == 0b1001 {
        let t = register_for_code(((input >> 8) & 0x7) as u8);
        let imm = ((input & 0xff) << 2) as u32;
        if op_b <= 0b011 {
            Ok(Operation::STRImm { imm, n: Register::SP, t })
        } else {
            Ok(Operation::LDRImm { imm, n: Register::SP, t })
        }
    } else {
        Err(DecodeError::UnsupportedEncoding)
    }
}

/// What the hint group decodes a halfword to: no-operation, yield,
/// wait-for-event, wait-for-interrupt or send-event, selected by
/// bits 7..4, valid only when the low four bits are all zero.
pub open spec fn spec_hint(input: u16) -> Result<OperationModel, DecodeError> {
    let op_a = (input >> 4) & 0xf;
    let op_b = input & 0xf;
    if op_b > 0 {
        Err(DecodeError::UnsupportedEncoding)
    } else if op_a == 0b0000 {
        Ok(OperationModel::Plain(Operation::NOP))
    } else if op_a == 0b0001 {
        Ok(OperationModel::Plain(Operation::YIELD))
    } else if op_a == 0b0010 {
        Ok(OperationModel::Plain(Operation::WFE))
    } else if op_a == 0b0011 {
        Ok(OperationModel::Plain(Operation::WFI))
    } else if op_a == 0b0100 {
        Ok(OperationModel::Plain(Operation::SEV))
    } else {
        Err(DecodeError::UnsupportedEncoding)
    }
}

/// Decode the hint group.
pub fn parse_hint_instruction(input: u16) -> (r: Result<Operation, DecodeError>)
    ensures
        operation_result_models(r, spec_hint(input)),
{
    let op_a = (input >> 4) & 0xf;
    let op_b = input & 0xf;
    if op_b > 0 {
        return Err(DecodeError::UnsupportedEncoding);
    }
    if op_a == 0b0000 {
        Ok(Operation::NOP)
    } else if op_a == 0b0001 {
        Ok(Operation::YIELD)
    } else if op_a == 0b0010 {
        Ok(Operation::WFE)
    } else if op_a == 0b0011 {
        Ok(Operation::WFI)
    } else if op_a == 0b0100 {
        Ok(Operation::SEV)
    } else {
        Err(DecodeError::UnsupportedEncoding)
    }
}

/// What the conditional-branch group decodes a halfword to.  The
/// condition nibble's value 14 is the permanently undefined pattern and
/// value 15 is the supervisor call: positional exceptions checked before
/// generic condition decoding.
pub open spec fn spec_conditional_branch(input: u16) -> Result<OperationModel, DecodeError> {
    let opcode = (input >> 8) & 0xf;
    if opcode == 0b1110 {
        Err(DecodeError::UnsupportedEncoding)
    } else if opcode == 0b1111 {
        Ok(OperationModel::Plain(Operation::SVC { imm: (input & 0xff) as u32 }))
    } else {
        Ok(OperationModel::Plain(Operation::B {
            cond: condition_of(opcode as int),
            imm: sign_extended(((input & 0xff) << 1) as u32, 9),
        }))
    }
}

/// Decode the conditional-branch group.
pub fn parse_conditional_branch(input: u16) -> (r: Result<Operation, DecodeError>)
    ensures
        operation_result_models(r, spec_conditional_branch(input)),
{
    proof {
        lemma_u16_mask_bound();
    }
    let opcode = (input >> 8) & 0xf;
    if opcode == 0b1110 {
        // Permanently undefined pattern.
        Err(DecodeError::UnsupportedEncoding)
    } else if opcode == 0b1111 {
        Ok(Operation::SVC { imm: (input & 0xff) as u32 })
    } else {
        let imm = sign_extend_u16((input & 0xff) << 1, 9);
        match Condition::try_from(opcode as u8) {
            Ok(cond) => Ok(Operation::B { cond, imm }),
            Err(_) => vstd::pervasive::unreached(),
        }
    }
}

/// What the miscellaneous 16-bit group decodes a halfword to, by
/// bits 11..5: stack-pointer adjustment, sign and zero extension, push
/// and pop, interrupt-mask change, byte reversal, breakpoint, or a hint.
pub open spec fn spec_misc_16_bit(input: u16) -> Result<OperationModel, DecodeError> {
    let opcode = (input >> 5) & 0x7f;
    if opcode <= 0b0000011 {
        Ok(OperationModel::Plain(Operation::ADDImmSP {
            d: Register::SP,
            imm: ((input & 0x7f) << 2) as u32,
        }))
    } else if opcode <= 0b0000111 {
        Ok(OperationModel::Plain(Operation::SUBImmSP { imm: ((input & 0x7f) << 2) as u32 }))
    } else if 0b0010000 <= opcode && opcode <= 0b0010001 {
        Ok(OperationModel::Plain(Operation::SXTH {
            m: register_of(((input >> 3) & 0x7) as int),
            d: register_of((input & 0x7) as int),
        }))
    } else if 0b0010010 <= opcode && opcode <= 0b0010011 {
        Ok(OperationModel::Plain(Operation::SXTB {
            m: register_of(((input >> 3) & 0x7) as int),
            d: register_of((input & 0x7) as int),
        }))
    } else if 0b0010100 <= opcode && opcode <= 0b0010101 {
        Ok(OperationModel::Plain(Operation::UXTH {
            m: register_of(((input >> 3) & 0x7) as int),
            d: register_of((input & 0x7) as int),
        }))
    } else if 0b0010110 <= opcode && opcode <= 0b0010111 {
        Ok(OperationModel::Plain(Operation::UXTB {
            m: register_of(((input >> 3) & 0x7) as int),
            d: register_of((input & 0x7) as int),
        }))
    } else if 0b0100000 <= opcode && opcode <= 0b0101111 {
        Ok(OperationModel::Push {
            registers: register_list_view((((input >> 8) & 0b1) << 14) | (input & 0xff)),
        })
    } else if opcode == 0b0110011 {
        Ok(OperationModel::Plain(Operation::CPS { im: ((input >> 4) & 0b1) == 1 }))
    } else if 0b1010000 <= opcode && opcode <= 0b1010001 {
        Ok(OperationModel::Plain(Operation::REV {
            m: register_of(((input >> 3) & 0x7) as int),
            d: register_of((input & 0x7) as int),
        }))
    } else if 0b1010010 <= opcode && opcode <= 0b1010011 {
        Ok(OperationModel::Plain(Operation::REV16 {
            m: register_of(((input >> 3) & 0x7) as int),
            d: register_of((input & 0x7) as int),
        }))
    } else if 0b1010110 <= opcode && opcode <= 0b1010111 {
        Ok(OperationModel::Plain(Operation::REVSH {
            m: register_of(((input >> 3) & 0x7) as int),
            d: register_of((input & 0x7) as int),
        }))
    } else if 0b1100000 <= opcode && opcode <= 0b1101111 {
        Ok(OperationModel::Pop {
            registers: register_list_view((((input >> 8) & 0b1) << 15) | (input & 0xff)),
        })
    } else if 0b1110000 <= opcode && opcode <= 0b1110111 {
        Ok(OperationModel::Plain(Operation::BKPT { imm: (input & 0xff) as u32 }))
    } else if 0b1111000 <= opcode && opcode <= 0b1111111 {
        spec_hint(input)
    } else {
        Err(DecodeError::UnsupportedEncoding)
    }
}

/// Decode the miscellaneous 16-bit group.  Push and pop fold the
/// link-register or program-counter bit into the bitmap at its fixed
/// position before expanding the register list.
pub fn parse_misc_16_bit(input: u16) -> (r: Result<Operation, DecodeError>)
    ensures
        operation_result_models(r, spec_misc_16_bit(input)),
{
    proof {
        lemma_u16_mask_bound();
    }
    let opcode = (input >> 5) & 0x7f;
    if opcode <= 0b0000011 {
        Ok(Operation::ADDImmSP { d: Register::SP, imm: ((input & 0x7f) << 2) as u32 })
    } else if opcode <= 0b0000111 {
        Ok(Operation::SUBImmSP { imm: ((input & 0x7f) << 2) as u32 })
    } else if 0b0010000 <= opcode && opcode <= 0b0010001 {
        Ok(Operation::SXTH {
            m: register_for_code(((input >> 3) & 0x7) as u8),
            d: register_for_code((input & 0x7) as u8),
        })
    } else if 0b0010010 <= opcode && opcode <= 0b0010011 {
        Ok(Operation::SXTB {
            m: register_for_code(((input >> 3) & 0x7) as u8),
            d: register_for_code((input & 0x7) as u8),
        })
    } else if 0b0010100 <= opcode && opcode <= 0b0010101 {
        Ok(Operation::UXTH {
            m: register_for_code(((input >> 3) & 0x7) as u8),
            d: register_for_code((input & 0x7) as u8),
        })
    } else if 0b0010110 <= opcode && opcode <= 0b0010111 {
        Ok(Operation::UXTB {
            m: register_for_code(((input >> 3) & 0x7) as u8),
            d: register_for_code((input & 0x7) as u8),
        })
    } else if 0b0100000 <= opcode && opcode <= 0b0101111 {
        let reg_list_bits = (((input >> 8) & 0b1) << 14) | (input & 0xff);
        let reg_list = register_list_from_bit_array(reg_list_bits);
        Ok(Operation::PUSH { reg_list })
    } else if opcode == 0b0110011 {
        let im = ((input >> 4) & 0b1) == 1;
        Ok(Operation::CPS { im })
    } else if 0b1010000 <= opcode && opcode <= 0b1010001 {
        Ok(Operation::REV {
            m: register_for_code(((input >> 3) & 0x7) as u8),
            d: register_for_code((input & 0x7) as u8),
        })
    } else if 0b1010010 <= opcode && opcode <= 0b1010011 {
        Ok(Operation::REV16 {
            m: register_for_code(((input >> 3) & 0x7) as u8),
            d: register_for_code((input & 0x7) as u8),
        })
    } else if 0b1010110 <= opcode && opcode <= 0b1010111 {
        Ok(Operation::REVSH {
            m: register_for_code(((input >> 3) & 0x7) as u8),
            d: register_for_code((input & 0x7) as u8),
        })
    } else if 0b1100000 <= opcode && opcode <= 0b1101111 {
        let reg_list_bits = (((input >> 8) & 0b1) << 15) | (input & 0xff);
        let reg_list = register_list_from_bit_array(reg_list_bits);
        Ok(Operation::POP { reg_list })
    } else if 0b1110000 <= opcode && opcode <= 0b1110111 {
        Ok(Operation::BKPT { imm: (input & 0xff) as u32 })
    } else if 0b1111000 <= opcode && opcode <= 0b1111111 {
        parse_hint_instruction(input)
    } else {
        Err(DecodeError::UnsupportedEncoding)
    }
}

/// What a 16-bit halfword decodes to: the first dispatch on the major
/// opcode, bits 15..10.
pub open spec fn spec_operation_16bit(input: u16) -> Result<OperationModel, DecodeError> {
    let opcode = (input >> 10) & 0x3f;
    if opcode <= 0b001111 {
        spec_arith(input)
    } else if opcode == 0b010000 {
        spec_data_processing(input)
    } else if opcode == 0b010001 {
        spec_special_data_branch_exchange(input)
    } else if 0b010010 <= opcode && opcode <= 0b010011 {
        Ok(OperationModel::Plain(Operation::LDRLiteral {
            t: register_of(((input >> 8) & 0x7) as int),
            imm: ((input & 0xff) << 2) as u32,
        }))
    } else if 0b010100 <= opcode && opcode <= 0b100111 {
        spec_load_store(input)
    } else if 0b101000 <= opcode && opcode <= 0b101001 {
        Ok(OperationModel::Plain(Operation::ADR {
            d: register_of(((input >> 8) & 0x7) as int),
            imm: ((input & 0xff) << 2) as u32,
        }))
    } else if 0b101010 <= opcode && opcode <= 0b101011 {
        Ok(OperationModel::Plain(Operation::ADDImmSP {
            d: register_of(((input >> 8) & 0x7) as int),
            imm: ((input & 0xff) << 2) as u32,
        }))
    } else if 0b101100 <= opcode && opcode <= 0b101111 {
        spec_misc_16_bit(input)
    } else if 0b110000 <= opcode && opcode <= 0b110001 {
        Ok(OperationModel::Stm {
            n: register_of(((input >> 8) & 0x7) as int),
            registers: register_list_view(input & 0xff),
        })
    } else if 0b110010 <= opcode && opcode <= 0b110011 {
        Ok(OperationModel::Ldm {
            n: register_of(((input >> 8) & 0x7) as int),
            registers: register_list_view(input & 0xff),
        })
    } else if 0b110100 <= opcode && opcode <= 0b110111 {
        spec_conditional_branch(input)
    } else if 0b111000 <= opcode && opcode <= 0b111001 {
        Ok(OperationModel::Plain(Operation::B {
            cond: Condition::AL,
            imm: sign_extended(((input & 0x7ff) << 1) as u32, 12),
        }))
    } else {
        Err(DecodeError::UnsupportedEncoding)
    }
}

/// Decode one 16-bit halfword.
pub fn parse_16bit_operation(input: u16) -> (r: Result<Operation, DecodeError>)
    ensures
        operation_result_models(r, spec_operation_16bit(input)),
{
    proof {
        lemma_u16_mask_bound();
    }
    let opcode = (input >> 10) & 0x3f;
    if opcode <= 0b001111 {
        parse_arith_instructions(input)
    } else if opcode == 0b010000 {
        parse_data_processing_instruction(input)
    } else if opcode == 0b010001 {
        parse_special_data_branch_exchange_instruction(input)
    } else if 0b010010 <= opcode && opcode <= 0b010011 {
        Ok(Operation::LDRLiteral {
            t: register_for_code(((input >> 8) & 0x7) as u8),
            imm: ((input & 0xff) << 2) as u32,
        })
    } else if 0b010100 <= opcode && opcode <= 0b100111 {
        parse_load_store_instruction(input)
    } else if 0b101000 <= opcode && opcode <= 0b101001 {
        Ok(Operation::ADR {
            d: register_for_code(((input >> 8) & 0x7) as u8),
            imm: ((input & 0xff) << 2) as u32,
        })
    } else if 0b101010 <= opcode && opcode <= 0b101011 {
        Ok(Operation::ADDImmSP {
            d: register_for_code(((input >> 8) & 0x7) as u8),
            imm: ((input & 0xff) << 2) as u32,
        })
    } else if 0b101100 <= opcode && opcode <= 0b101111 {
        parse_misc_16_bit(input)
    } else if 0b110000 <= opcode && opcode <= 0b110001 {
        let n = register_for_code(((input >> 8) & 0x7) as u8);
        let reg_list = register_list_from_bit_array(input & 0xff);
        Ok(Operation::STM { n, reg_list })
    } else if 0b110010 <= opcode && opcode <= 0b110011 {
        let n = register_for_code(((input >> 8) & 0x7) as u8);
        let reg_list = register_list_from_bit_array(input & 0xff);
        Ok(Operation::LDM { n, reg_list })
    } else if 0b110100 <= opcode && opcode <= 0b110111 {
        parse_conditional_branch(input)
    } else if 0b111000 <= opcode && opcode <= 0b111001 {
        let imm = sign_extend_u16((input & 0x7ff) << 1, 12);
        Ok(Operation::B { cond: Condition::AL, imm })
    } else {
        Err(DecodeError::UnsupportedEncoding)
    }
}

} // verus!
