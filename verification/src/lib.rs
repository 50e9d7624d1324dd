//! Decoder for the ARMv6-M Thumb instruction set.
//!
//! A single call to [`parse`] turns the little-endian bytes of one
//! instruction into a typed [`instructions::Instruction`], or reports why
//! the bytes do not encode one.  The decoder is a pure function of its
//! input: the specification [`spec_parse`] pins down the result for every
//! byte sequence.

use vstd::prelude::*;

pub mod conditions;
pub mod decode16;
pub mod decode32;
pub mod instructions;
pub mod registers;

verus! {

/// Why a single decode attempt failed.
#[derive(Clone, Copy, Debug, PartialEq, Eq, Structural)]
pub enum DecodeError {
    /// Fewer bytes were supplied than the classified width requires.
    Truncated,
    /// A 4-bit condition code outside the valid range 0..=14.
    InvalidCondition,
    /// A register code outside the valid range 0..=15.
    InvalidRegister,
    /// An 8-bit system-register code outside the defined sparse set.
    InvalidSpecialRegister,
    /// The opcode bits fall in a region this decoder does not decode.
    UnsupportedEncoding,
}

/// The low `valid_bits` bits of `value` with bit `valid_bits - 1` treated as
/// the sign bit and propagated through every higher bit of the 32-bit result.
pub open spec fn sign_extended(value: u32, valid_bits: u32) -> u32
    recommends
        1 <= valid_bits && valid_bits <= 32,
{
    if valid_bits == 32 {
        value
    } else {
        let mask: u32 = ((1u32 << valid_bits) - 1) as u32;
        if (value >> ((valid_bits - 1) as u32)) & 1 == 1 {
            (value & mask) | !mask
        } else {
            value & mask
        }
    }
}

/// A shift of 1 by fewer than 32 places never produces zero.
pub proof fn lemma_shl1_positive()
    by (bit_vector)
    ensures
        forall|k: u32| k < 32 ==> #[trigger] (1u32 << k) >= 1,
{
}

/// Masking never raises a halfword above the mask.
pub proof fn lemma_u16_mask_bound()
    by (bit_vector)
    ensures
        forall|x: u16, m: u16| #[trigger] (x & m) <= m,
{
}

/// Masking never raises a word above the mask.
pub proof fn lemma_u32_mask_bound()
    by (bit_vector)
    ensures
        forall|x: u32, m: u32| #[trigger] (x & m) <= m,
{
}

/// The bitwise or of two halfword register codes is a register code.
pub proof fn lemma_u16_or_bound()
    by (bit_vector)
    ensures
        forall|x: u16, y: u16| x < 16 && y < 16 ==> #[trigger] (x | y) < 16,
{
}

/// Sign-extend a field of `valid_bits` bits held in a 32-bit word.
pub fn sign_extend_u32(value: u32, valid_bits: u32) -> (r: u32)
    requires
        1 <= valid_bits <= 32,
    ensures
        r == sign_extended(value, valid_bits),
{
    if valid_bits == 32 {
        value
    } else {
        proof {
            lemma_shl1_positive();
        }
        let mask: u32 = (1u32 << valid_bits) - 1;
        if (value >> (valid_bits - 1)) & 1 == 1 {
            (value & mask) | !mask
        } else {
            value & mask
        }
    }
}

/// Sign-extend a field of `valid_bits` bits held in a halfword.
pub fn sign_extend_u16(value: u16, valid_bits: u32) -> (r: u32)
    requires
        1 <= valid_bits <= 16,
    ensures
        r == sign_extended(value as u32, valid_bits),
{
    sign_extend_u32(value as u32, valid_bits)
}

/// Sign extension keeps every valid bit as it was, fills every higher
/// bit with a copy of the sign bit (bit `valid_bits - 1`), and is the
/// identity on a field as wide as the word.
pub proof fn lemma_sign_extended_bits(value: u32, valid_bits: u32)
    by (bit_vector)
    requires
        1 <= valid_bits <= 32,
    ensures
        forall|i: u32|
            i < valid_bits ==> (#[trigger] (sign_extended(value, valid_bits) >> i)) & 1 == (value
                >> i) & 1,
        forall|i: u32|
            valid_bits <= i < 32 ==> (#[trigger] (sign_extended(value, valid_bits) >> i)) & 1 == (
            value >> (valid_bits - 1) as u32) & 1,
        valid_bits == 32 ==> sign_extended(value, valid_bits) == value,
{
}

/// The 16-bit halfword formed little-endian from two bytes.
pub open spec fn halfword(lo: u8, hi: u8) -> u16 {
    (lo as u16) | ((hi as u16) << 8)
}

/// Whether the top five bits of the first halfword select a two-halfword
/// encoding.
pub open spec fn is_wide_halfword(hw: u16) -> bool {
    let top5 = (hw >> 11) & 0x1f;
    top5 == 0b11101 || top5 == 0b11110 || top5 == 0b11111
}

/// What a byte sequence decodes to: the width classified from the first
/// halfword, the operation given by the matching dispatch tree, or the
/// reason no instruction can be read from these bytes.
pub open spec fn spec_parse(bytes: Seq<u8>) -> Result<
    instructions::InstructionModel,
    DecodeError,
> {
    if bytes.len() < 2 {
        Err(DecodeError::Truncated)
    } else {
        let hw1 = halfword(bytes[0], bytes[1]);
        if is_wide_halfword(hw1) {
            if bytes.len() < 4 {
                Err(DecodeError::Truncated)
            } else {
                let word = ((hw1 as u32) << 16) | (halfword(bytes[2], bytes[3]) as u32);
                match decode32::spec_operation_32bit(word) {
                    Ok(operation) => Ok(instructions::InstructionModel {
                        width: instructions::InstructionWidth::Bit32,
                        operation,
                    }),
                    Err(e) => Err(e),
                }
            }
        } else {
            match decode16::spec_operation_16bit(hw1) {
                Ok(operation) => Ok(instructions::InstructionModel {
                    width: instructions::InstructionWidth::Bit16,
                    operation,
                }),
                Err(e) => Err(e),
            }
        }
    }
}

/// Whether a parse result agrees with a modelled parse result: the same
/// failure, or an instruction whose view is exactly the modelled one.
pub open spec fn parse_result_models(
    r: Result<instructions::Instruction, DecodeError>,
    m: Result<instructions::InstructionModel, DecodeError>,
) -> bool {
    match (r, m) {
        (Ok(inst), Ok(model)) => inst@ == model,
        (Err(e), Err(me)) => e == me,
        _ => false,
    }
}

/// A first halfword whose top five bits select a two-halfword encoding
/// classifies the input as 32-bit: with fewer than four bytes the decode
/// fails as truncated, even when exactly two bytes are present, and a
/// successful decode always carries the 32-bit width tag.
pub proof fn lemma_wide_classification(bytes: Seq<u8>)
    requires
        bytes.len() >= 2,
        is_wide_halfword(halfword(bytes[0], bytes[1])),
    ensures
        bytes.len() < 4 ==> spec_parse(bytes) == Err::<
            instructions::InstructionModel,
            DecodeError,
        >(DecodeError::Truncated),
        spec_parse(bytes) matches Ok(model) ==> model.width is Bit32,
{
}

/// A first halfword outside the two-halfword prefixes is decoded from
/// the first two bytes alone — the decoder never over-reads past its
/// classified width — and a successful decode always carries the 16-bit
/// width tag.
pub proof fn lemma_narrow_width(bytes: Seq<u8>)
    requires
        bytes.len() >= 2,
        !is_wide_halfword(halfword(bytes[0], bytes[1])),
    ensures
        spec_parse(bytes) == spec_parse(bytes.take(2)),
        spec_parse(bytes) matches Ok(model) ==> model.width is Bit16,
{
    assert(bytes.take(2).len() == 2);
    assert(bytes.take(2)[0] == bytes[0]);
    assert(bytes.take(2)[1] == bytes[1]);
}

/// A 32-bit instruction's operation is always drawn from the branch and
/// miscellaneous-control subset: the only 32-bit region this decoder
/// defines.
pub proof fn lemma_wide_operations_stay_in_region(bytes: Seq<u8>)
    ensures
        spec_parse(bytes) matches Ok(model) ==> model.width is Bit32
            ==> decode32::is_branch_misc_ctrl_operation(model.operation),
{
    if bytes.len() >= 4 {
        let hw1 = halfword(bytes[0], bytes[1]);
        let word = ((hw1 as u32) << 16) | (halfword(bytes[2], bytes[3]) as u32);
        decode32::lemma_32bit_region(word);
    }
}

/// Decoding is deterministic: any two results that agree with the model
/// of the same bytes are structurally equal — the same failure, or
/// instructions of equal shape.
pub proof fn lemma_parse_deterministic(
    r1: Result<instructions::Instruction, DecodeError>,
    r2: Result<instructions::Instruction, DecodeError>,
    bytes: Seq<u8>,
)
    requires
        parse_result_models(r1, spec_parse(bytes)),
        parse_result_models(r2, spec_parse(bytes)),
    ensures
        match (r1, r2) {
            (Ok(i1), Ok(i2)) => i1@ == i2@,
            (Err(e1), Err(e2)) => e1 == e2,
            _ => false,
        },
{
}

/// Parse the little-endian bytes of one instruction, starting at offset
/// zero of the slice.  Exactly one instruction is decoded: two bytes are
/// consumed for a 16-bit encoding and four for a 32-bit one, and fewer
/// available bytes than the classified width requires fail with
/// `Truncated`.
pub fn parse(input: &[u8]) -> (r: Result<instructions::Instruction, DecodeError>)
    ensures
        parse_result_models(r, spec_parse(input@)),
{
    if input.len() < 2 {
        return Err(DecodeError::Truncated);
    }
    let hw1: u16 = (input[0] as u16) | ((input[1] as u16) << 8);
    let top5 = (hw1 >> 11) & 0x1f;
    if top5 == 0b11101 || top5 == 0b11110 || top5 == 0b11111 {
        if input.len() < 4 {
            return Err(DecodeError::Truncated);
        }
        let hw2: u16 = (input[2] as u16) | ((input[3] as u16) << 8);
        let word: u32 = ((hw1 as u32) << 16) | (hw2 as u32);
        match decode32::parse_32bit_operation(word) {
            Ok(operation) => Ok(instructions::Instruction {
                width: instructions::InstructionWidth::Bit32,
                operation,
            }),
            Err(e) => Err(e),
        }
    } else {
        match decode16::parse_16bit_operation(hw1) {
            Ok(operation) => Ok(instructions::Instruction {
                width: instructions::InstructionWidth::Bit16,
                operation,
            }),
            Err(e) => Err(e),
        }
    }
}

} // verus!
