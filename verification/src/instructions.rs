//! The decoded instruction entity and its mathematical model.

use vstd::prelude::*;

use crate::conditions::Condition;
use crate::registers::{Register, SpecialRegister};

verus! {

/// How many bytes the instruction's binary representation occupies:
/// one halfword (2 bytes) or two (4 bytes).
#[derive(Clone, Copy, Debug, PartialEq, Eq, Structural)]
pub enum InstructionWidth {
    Bit32,
    Bit16,
}

/// A decoded instruction: its encoding width and its operation.
#[derive(Clone, Debug, PartialEq)]
pub struct Instruction {
    pub width: InstructionWidth,
    pub operation: Operation,
}

impl Instruction {
    /// Whether the instruction occupies one halfword.
    pub fn is_16bit(&self) -> (r: bool)
        ensures
            r == (self.width is Bit16),
    {
        matches!(self.width, InstructionWidth::Bit16)
    }

    /// Whether the instruction occupies two halfwords.
    pub fn is_32bit(&self) -> (r: bool)
        ensures
            r == (self.width is Bit32),
    {
        matches!(self.width, InstructionWidth::Bit32)
    }
}

/// One variant per distinct instruction encoding, carrying exactly the
/// operand fields that encoding defines.  Immediates are stored at their
/// final semantic value: pre-shifted and, where the architecture defines
/// the field as signed, pre-sign-extended.
#[derive(Clone, Debug, PartialEq)]
pub enum Operation {
    ADCReg { m: Register, n: Register, d: Register },
    ADDImm { imm: u32, n: Register, d: Register },
    ADDReg { m: Register, n: Register, d: Register },
    ADDImmSP { d: Register, imm: u32 },
    ADDRegSP { d: Register, m: Register },
    ADR { d: Register, imm: u32 },
    ANDReg { m: Register, dn: Register },
    ASRImm { imm: u32, m: Register, d: Register },
    ASRReg { m: Register, dn: Register },
    B { cond: Condition, imm: u32 },
    BICReg { m: Register, dn: Register },
    BKPT { imm: u32 },
    BL { imm: u32 },
    BLXReg { m: Register },
    BX { m: Register },
    CMNReg { m: Register, n: Register },
    CMPImm { n: Register, imm: u32 },
    CMPReg { m: Register, n: Register },
    CPS { im: bool },
    CPY,
    DMB { option: u8 },
    DSB { option: u8 },
    EORReg { m: Register, dn: Register },
    ISB { option: u8 },
    LDM { n: Register, reg_list: Vec<Register> },
    LDRImm { imm: u32, n: Register, t: Register },
    LDRLiteral { t: Register, imm: u32 },
    LDRReg { m: Register, n: Register, t: Register },
    LDRBImm { imm: u32, n: Register, t: Register },
    LDRBReg { m: Register, n: Register, t: Register },
    LDRHImm { imm: u32, n: Register, t: Register },
    LDRHReg { m: Register, n: Register, t: Register },
    LDRSBReg { m: Register, n: Register, t: Register },
    LDRSH { m: Register, n: Register, t: Register },
    LSLImm { imm: u32, m: Register, d: Register },
    LSLReg { m: Register, dn: Register },
    LSRImm { imm: u32, m: Register, d: Register },
    LSRReg { m: Register, dn: Register },
    MOVImm { d: Register, imm: u32 },
    MOVReg { m: Register, d: Register, set_flags: bool },
    MRS { d: Register, sysm: SpecialRegister },
    MSRReg { n: Register, sysm: SpecialRegister },
    MUL { n: Register, dm: Register },
    MVNReg { m: Register, d: Register },
    NOP,
    ORRReg { m: Register, dn: Register },
    POP { reg_list: Vec<Register> },
    PUSH { reg_list: Vec<Register> },
    REV { m: Register, d: Register },
    REV16 { m: Register, d: Register },
    REVSH { m: Register, d: Register },
    RORReg { m: Register, dn: Register },
    RSBImm { n: Register, d: Register },
    SBCReg { m: Register, dn: Register },
    SEV,
    STM { n: Register, reg_list: Vec<Register> },
    STRImm { imm: u32, n: Register, t: Register },
    STRReg { m: Register, n: Register, t: Register },
    STRBImm { imm: u32, n: Register, t: Register },
    STRBReg { m: Register, n: Register, t: Register },
    STRHImm { imm: u32, n: Register, t: Register },
    STRHReg { m: Register, n: Register, t: Register },
    SUBImm { imm: u32, n: Register, d: Register },
    SUBReg { m: Register, n: Register, d: Register },
    SUBImmSP { imm: u32 },
    SVC { imm: u32 },
    SXTB { m: Register, d: Register },
    SXTH { m: Register, d: Register },
    TSTReg { m: Register, n: Register },
    UDFT1 { imm: u32 },
    UDFT2 { imm: u32 },
    UXTB { m: Register, d: Register },
    UXTH { m: Register, d: Register },
    WFE,
    WFI,
    YIELD,
}

/// The mathematical shape of an operation.  Register-list operations are
/// modelled with the list as a sequence; every other operation carries
/// only plain operands and stands for itself.
pub enum OperationModel {
    Plain(Operation),
    Push { registers: Seq<Register> },
    Pop { registers: Seq<Register> },
    Stm { n: Register, registers: Seq<Register> },
    Ldm { n: Register, registers: Seq<Register> },
}

/// The mathematical shape of a decoded instruction.
pub struct InstructionModel {
    pub width: InstructionWidth,
    pub operation: OperationModel,
}

impl View for Operation {
    type V = OperationModel;

    open spec fn view(&self) -> OperationModel {
        match self {
            Operation::PUSH { reg_list } => OperationModel::Push { registers: reg_list@ },
            Operation::POP { reg_list } => OperationModel::Pop { registers: reg_list@ },
            Operation::STM { n, reg_list } => OperationModel::Stm {
                n: *n,
                registers: reg_list@,
            },
            Operation::LDM { n, reg_list } => OperationModel::Ldm {
                n: *n,
                registers: reg_list@,
            },
            op => OperationModel::Plain(*op),
        }
    }
}

/// Whether a decode result agrees with a modelled decode result: the same
/// failure, or an operation whose shape is exactly the modelled one.
pub open spec fn operation_result_models(
    r: Result<Operation, crate::DecodeError>,
    m: Result<OperationModel, crate::DecodeError>,
) -> bool {
    match (r, m) {
        (Ok(op), Ok(model)) => op@ == model,
        (Err(e), Err(me)) => e == me,
        _ => false,
    }
}

impl View for Instruction {
    type V = InstructionModel;

    open spec fn view(&self) -> InstructionModel {
        InstructionModel { width: self.width, operation: self.operation@ }
    }
}

} // verus!
