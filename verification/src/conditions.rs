//! Branch condition codes.

use vstd::prelude::*;

use crate::DecodeError;

verus! {

/// A branch condition.  Code 14 is the distinguished "always" value `AL`:
/// a valid, representable condition marking an unconditional branch, not
/// an absence of one.  Code 15 is not a condition.
#[derive(Clone, Copy, Debug, PartialEq, Eq, Structural)]
pub enum Condition {
    EQ,
    NE,
    CS,
    CC,
    MI,
    PL,
    VS,
    VC,
    HI,
    LS,
    GE,
    LT,
    GT,
    LE,
    AL,
}

/// The numeric code of a condition.
pub open spec fn condition_code(c: Condition) -> int {
    match c {
        Condition::EQ => 0,
        Condition::NE => 1,
        Condition::CS => 2,
        Condition::CC => 3,
        Condition::MI => 4,
        Condition::PL => 5,
        Condition::VS => 6,
        Condition::VC => 7,
        Condition::HI => 8,
        Condition::LS => 9,
        Condition::GE => 10,
        Condition::LT => 11,
        Condition::GT => 12,
        Condition::LE => 13,
        Condition::AL => 14,
    }
}

/// The condition named by a code.
pub open spec fn condition_of(code: int) -> Condition
    recommends
        0 <= code <= 14,
{
    if code == 0 {
        Condition::EQ
    } else if code == 1 {
        Condition::NE
    } else if code == 2 {
        Condition::CS
    } else if code == 3 {
        Condition::CC
    } else if code == 4 {
        Condition::MI
    } else if code == 5 {
        Condition::PL
    } else if code == 6 {
        Condition::VS
    } else if code == 7 {
        Condition::VC
    } else if code == 8 {
        Condition::HI
    } else if code == 9 {
        Condition::LS
    } else if code == 10 {
        Condition::GE
    } else if code == 11 {
        Condition::LT
    } else if code == 12 {
        Condition::GT
    } else if code == 13 {
        Condition::LE
    } else {
        Condition::AL
    }
}

/// Decoding a condition code and reading its numeric form back returns the
/// code unchanged, for every valid code.
pub proof fn lemma_condition_round_trip(code: int)
    requires
        0 <= code <= 14,
    ensures
        condition_code(condition_of(code)) == code,
        forall|c: Condition| condition_of(condition_code(c)) == c,
{
}

impl Condition {
    /// Decode a raw condition code; codes 15 and above are rejected.
    pub fn try_from(value: u8) -> (r: Result<Condition, DecodeError>)
        ensures
            value <= 14 ==> r == Ok::<Condition, DecodeError>(condition_of(value as int)),
            value > 14 ==> r == Err::<Condition, DecodeError>(DecodeError::InvalidCondition),
    {
        match value {
            0 => Ok(Condition::EQ),
            1 => Ok(Condition::NE),
            2 => Ok(Condition::CS),
            3 => Ok(Condition::CC),
            4 => Ok(Condition::MI),
            5 => Ok(Condition::PL),
            6 => Ok(Condition::VS),
            7 => Ok(Condition::VC),
            8 => Ok(Condition::HI),
            9 => Ok(Condition::LS),
            10 => Ok(Condition::GE),
            11 => Ok(Condition::LT),
            12 => Ok(Condition::GT),
            13 => Ok(Condition::LE),
            14 => Ok(Condition::AL),
            _ => Err(DecodeError::InvalidCondition),
        }
    }

    /// The numeric code of this condition.
    pub fn number(&self) -> (r: u8)
        ensures
            r == condition_code(*self),
    {
        match self {
            Condition::EQ => 0,
            Condition::NE => 1,
            Condition::CS => 2,
            Condition::CC => 3,
            Condition::MI => 4,
            Condition::PL => 5,
            Condition::VS => 6,
            Condition::VC => 7,
            Condition::HI => 8,
            Condition::LS => 9,
            Condition::GE => 10,
            Condition::LT => 11,
            Condition::GT => 12,
            Condition::LE => 13,
            Condition::AL => 14,
        }
    }
}

} // verus!
