//! General-purpose and system registers, and register-list bitmaps.

use vstd::prelude::*;

use crate::DecodeError;

verus! {

/// One of the sixteen general-purpose registers.  The last three carry
/// their architectural aliases: stack pointer, link register and program
/// counter.
#[derive(Clone, Copy, Debug, PartialEq, Eq, Structural)]
pub enum Register {
    R0,
    R1,
    R2,
    R3,
    R4,
    R5,
    R6,
    R7,
    R8,
    R9,
    R10,
    R11,
    R12,
    SP,
    LR,
    PC,
}

/// The numeric code of a general-purpose register.
pub open spec fn register_code(r: Register) -> int {
    match r {
        Register::R0 => 0,
        Register::R1 => 1,
        Register::R2 => 2,
        Register::R3 => 3,
        Register::R4 => 4,
        Register::R5 => 5,
        Register::R6 => 6,
        Register::R7 => 7,
        Register::R8 => 8,
        Register::R9 => 9,
        Register::R10 => 10,
        Register::R11 => 11,
        Register::R12 => 12,
        Register::SP => 13,
        Register::LR => 14,
        Register::PC => 15,
    }
}

/// The general-purpose register named by a code.
pub open spec fn register_of(code: int) -> Register
    recommends
        0 <= code < 16,
{
    if code == 0 {
        Register::R0
    } else if code == 1 {
        Register::R1
    } else if code == 2 {
        Register::R2
    } else if code == 3 {
        Register::R3
    } else if code == 4 {
        Register::R4
    } else if code == 5 {
        Register::R5
    } else if code == 6 {
        Register::R6
    } else if code == 7 {
        Register::R7
    } else if code == 8 {
        Register::R8
    } else if code == 9 {
        Register::R9
    } else if code == 10 {
        Register::R10
    } else if code == 11 {
        Register::R11
    } else if code == 12 {
        Register::R12
    } else if code == 13 {
        Register::SP
    } else if code == 14 {
        Register::LR
    } else {
        Register::PC
    }
}

/// Decoding a register code and reading its numeric form back returns the
/// code unchanged, for every code a 4-bit field can hold.
pub proof fn lemma_register_round_trip(code: int)
    requires
        0 <= code < 16,
    ensures
        register_code(register_of(code)) == code,
        forall|r: Register| register_of(register_code(r)) == r,
{
}

impl Register {
    /// Decode a raw register code; codes 16 and above are rejected.
    pub fn try_from(value: u8) -> (r: Result<Register, DecodeError>)
        ensures
            value < 16 ==> r == Ok::<Register, DecodeError>(register_of(value as int)),
            value >= 16 ==> r == Err::<Register, DecodeError>(DecodeError::InvalidRegister),
    {
        match value {
            0 => Ok(Register::R0),
            1 => Ok(Register::R1),
            2 => Ok(Register::R2),
            3 => Ok(Register::R3),
            4 => Ok(Register::R4),
            5 => Ok(Register::R5),
            6 => Ok(Register::R6),
            7 => Ok(Register::R7),
            8 => Ok(Register::R8),
            9 => Ok(Register::R9),
            10 => Ok(Register::R10),
            11 => Ok(Register::R11),
            12 => Ok(Register::R12),
            13 => Ok(Register::SP),
            14 => Ok(Register::LR),
            15 => Ok(Register::PC),
            _ => Err(DecodeError::InvalidRegister),
        }
    }

    /// The numeric code of this register.
    pub fn number(&self) -> (r: u8)
        ensures
            r == register_code(*self),
    {
        match self {
            Register::R0 => 0,
            Register::R1 => 1,
            Register::R2 => 2,
            Register::R3 => 3,
            Register::R4 => 4,
            Register::R5 => 5,
            Register::R6 => 6,
            Register::R7 => 7,
            Register::R8 => 8,
            Register::R9 => 9,
            Register::R10 => 10,
            Register::R11 => 11,
            Register::R12 => 12,
            Register::SP => 13,
            Register::LR => 14,
            Register::PC => 15,
        }
    }
}

/// The register named by a code already known to be in range.
pub fn register_for_code(code: u8) -> (r: Register)
    requires
        code < 16,
    ensures
        r == register_of(code as int),
{
    match Register::try_from(code) {
        Ok(r) => r,
        Err(_) => vstd::pervasive::unreached(),
    }
}

/// A processor system register.  The valid 8-bit codes form a sparse set;
/// every other code is rejected.
#[derive(Clone, Copy, Debug, PartialEq, Eq, Structural)]
pub enum SpecialRegister {
    APSR,
    IAPSR,
    EAPSR,
    XPSR,
    IPSR,
    EPSR,
    IEPSR,
    MSP,
    PSP,
    PRIMASK,
    CONTROL,
}

/// The numeric code of a system register.
pub open spec fn special_register_code(s: SpecialRegister) -> int {
    match s {
        SpecialRegister::APSR => 0,
        SpecialRegister::IAPSR => 1,
        SpecialRegister::EAPSR => 2,
        SpecialRegister::XPSR => 3,
        SpecialRegister::IPSR => 5,
        SpecialRegister::EPSR => 6,
        SpecialRegister::IEPSR => 7,
        SpecialRegister::MSP => 8,
        SpecialRegister::PSP => 9,
        SpecialRegister::PRIMASK => 16,
        SpecialRegister::CONTROL => 20,
    }
}

/// The system register named by a code, if the code is in the defined set.
pub open spec fn special_register_of(code: int) -> Option<SpecialRegister> {
    if code == 0 {
        Some(SpecialRegister::APSR)
    } else if code == 1 {
        Some(SpecialRegister::IAPSR)
    } else if code == 2 {
        Some(SpecialRegister::EAPSR)
    } else if code == 3 {
        Some(SpecialRegister::XPSR)
    } else if code == 5 {
        Some(SpecialRegister::IPSR)
    } else if code == 6 {
        Some(SpecialRegister::EPSR)
    } else if code == 7 {
        Some(SpecialRegister::IEPSR)
    } else if code == 8 {
        Some(SpecialRegister::MSP)
    } else if code == 9 {
        Some(SpecialRegister::PSP)
    } else if code == 16 {
        Some(SpecialRegister::PRIMASK)
    } else if code == 20 {
        Some(SpecialRegister::CONTROL)
    } else {
        None
    }
}

impl SpecialRegister {
    /// Decode a raw system-register code; codes outside the sparse valid
    /// set are rejected, never clamped.
    pub fn try_from(value: u8) -> (r: Result<SpecialRegister, DecodeError>)
        ensures
            match special_register_of(value as int) {
                Some(s) => r == Ok::<SpecialRegister, DecodeError>(s),
                None => r == Err::<SpecialRegister, DecodeError>(
                    DecodeError::InvalidSpecialRegister,
                ),
            },
    {
        match value {
            0 => Ok(SpecialRegister::APSR),
            1 => Ok(SpecialRegister::IAPSR),
            2 => Ok(SpecialRegister::EAPSR),
            3 => Ok(SpecialRegister::XPSR),
            5 => Ok(SpecialRegister::IPSR),
            6 => Ok(SpecialRegister::EPSR),
            7 => Ok(SpecialRegister::IEPSR),
            8 => Ok(SpecialRegister::MSP),
            9 => Ok(SpecialRegister::PSP),
            16 => Ok(SpecialRegister::PRIMASK),
            20 => Ok(SpecialRegister::CONTROL),
            _ => Err(DecodeError::InvalidSpecialRegister),
        }
    }

    /// The numeric code of this system register.
    pub fn number(&self) -> (r: u8)
        ensures
            r == special_register_code(*self),
    {
        match self {
            SpecialRegister::APSR => 0,
            SpecialRegister::IAPSR => 1,
            SpecialRegister::EAPSR => 2,
            SpecialRegister::XPSR => 3,
            SpecialRegister::IPSR => 5,
            SpecialRegister::EPSR => 6,
            SpecialRegister::IEPSR => 7,
            SpecialRegister::MSP => 8,
            SpecialRegister::PSP => 9,
            SpecialRegister::PRIMASK => 16,
            SpecialRegister::CONTROL => 20,
        }
    }
}

/// The registers whose bitmap bits at positions `lo..16` are set, in
/// ascending bit order.
pub open spec fn register_list_from(bits: u16, lo: int) -> Seq<Register>
    decreases 16 - lo,
{
    if lo < 0 || lo >= 16 {
        Seq::empty()
    } else if (bits >> (lo as u16)) & 1 == 1 {
        seq![register_of(lo)] + register_list_from(bits, lo + 1)
    } else {
        register_list_from(bits, lo + 1)
    }
}

/// The registers whose bitmap bits are set, in ascending bit order.
pub open spec fn register_list_view(bits: u16) -> Seq<Register> {
    register_list_from(bits, 0)
}

/// Every in-range code names the register it round-trips with.
pub proof fn lemma_register_code_of()
    ensures
        forall|n: int| 0 <= n < 16 ==> register_code(#[trigger] register_of(n)) == n,
{
}

proof fn lemma_register_list_from_props(bits: u16, lo: int)
    requires
        0 <= lo <= 16,
    ensures
        forall|j: int|
            0 <= j < register_list_from(bits, lo).len() ==> lo <= register_code(
                #[trigger] register_list_from(bits, lo)[j],
            ) < 16,
        forall|n: int|
            lo <= n < 16 ==> (register_list_from(bits, lo).contains(register_of(n)) <==> (bits >> (
            n as u16)) & 1 == 1),
        forall|j: int, k: int|
            0 <= j < k < register_list_from(bits, lo).len() ==> register_code(
                register_list_from(bits, lo)[j],
            ) < register_code(register_list_from(bits, lo)[k]),
    decreases 16 - lo,
{
    lemma_register_code_of();
    if lo < 16 {
        lemma_register_list_from_props(bits, lo + 1);
        let rest = register_list_from(bits, lo + 1);
        let s = register_list_from(bits, lo);
        if (bits >> (lo as u16)) & 1 == 1 {
            assert(s == seq![register_of(lo)] + rest);
            assert(s[0] == register_of(lo));
            assert forall|j: int| 0 < j < s.len() implies s[j] == rest[j - 1] by {}
            assert forall|n: int|
                lo <= n < 16 implies (s.contains(register_of(n)) <==> (bits >> (n as u16)) & 1
                == 1) by {
                if n == lo {
                    assert(s.contains(register_of(n)));
                } else {
                    if rest.contains(register_of(n)) {
                        let j = choose|j: int|
                            0 <= j < rest.len() && rest[j] == register_of(n);
                        assert(s[j + 1] == register_of(n));
                        assert(s.contains(register_of(n)));
                    }
                    if s.contains(register_of(n)) {
                        let j = choose|j: int| 0 <= j < s.len() && s[j] == register_of(n);
                        assert(j != 0);
                        assert(rest[j - 1] == register_of(n));
                        assert(rest.contains(register_of(n)));
                    }
                }
            }
        } else {
            assert(s == rest);
            assert forall|n: int|
                lo <= n < 16 implies (s.contains(register_of(n)) <==> (bits >> (n as u16)) & 1
                == 1) by {
                if n == lo {
                    if s.contains(register_of(lo)) {
                        let j = choose|j: int| 0 <= j < s.len() && s[j] == register_of(lo);
                        assert(register_code(s[j]) >= lo + 1);
                        assert(false);
                    }
                }
            }
        }
    }
}

/// Register-list decoding is monotonic and exhaustive: register `i`
/// stands in the decoded list exactly when bit `i` of the bitmap is set,
/// and the list ascends strictly by register code.
pub proof fn lemma_register_list_exhaustive(bits: u16)
    ensures
        forall|n: int|
            0 <= n < 16 ==> (register_list_view(bits).contains(register_of(n)) <==> (bits >> (
            n as u16)) & 1 == 1),
        forall|j: int, k: int|
            0 <= j < k < register_list_view(bits).len() ==> register_code(
                register_list_view(bits)[j],
            ) < register_code(register_list_view(bits)[k]),
{
    lemma_register_list_from_props(bits, 0);
}

/// Expand a 16-bit bitmap into the ascending list of registers whose bit
/// is set: bit `i` present means register `i` is included.
pub fn register_list_from_bit_array(bit_array: u16) -> (r: Vec<Register>)
    ensures
        r@ == register_list_view(bit_array),
{
    let mut ret: Vec<Register> = Vec::new();
    let mut i: u16 = 0;
    while i < 16
        invariant
            i <= 16,
            ret@ + register_list_from(bit_array, i as int) == register_list_view(bit_array),
        decreases 16 - i,
    {
        if (bit_array >> i) & 1 == 1 {
            let ghost prefix = ret@;
            ret.push(register_for_code(i as u8));
            proof {
                assert(ret@ =~= prefix + seq![register_of(i as int)]);
                assert(prefix + seq![register_of(i as int)] + register_list_from(
                    bit_array,
                    i as int + 1,
                ) =~= prefix + (seq![register_of(i as int)] + register_list_from(
                    bit_array,
                    i as int + 1,
                )));
            }
        }
        i += 1;
    }
    proof {
        assert(ret@ + register_list_from(bit_array, 16) =~= ret@);
    }
    ret
}

} // verus!

