//! The status codes of the native link-time optimiser.

use vstd::prelude::*;

verus! {

/// What an operation of the link-time optimiser came to.
#[derive(Clone, Copy, Debug, PartialEq, Eq, Structural)]
pub enum LTOStatus {
    Uknown,
    OptSuccess,
    ReadSuccess,
    ReadFailure,
    WriteFailure,
    NoTarget,
    NoWork,
    ModuleMergeFailure,
    ASMFailure,
    NullObject,
}

impl LTOStatus {
    /// The number by which the native side knows this status.
    pub open spec fn number(self) -> u32 {
        match self {
            LTOStatus::Uknown => 0,
            LTOStatus::OptSuccess => 1,
            LTOStatus::ReadSuccess => 2,
            LTOStatus::ReadFailure => 3,
            LTOStatus::WriteFailure => 4,
            LTOStatus::NoTarget => 5,
            LTOStatus::NoWork => 6,
            LTOStatus::ModuleMergeFailure => 7,
            LTOStatus::ASMFailure => 8,
            LTOStatus::NullObject => 9,
        }
    }

    /// The status that the native number `code` stands for, if it is the
    /// number of one.
    pub open spec fn of_number(code: u32) -> Option<LTOStatus> {
        if code == 0 {
            Some(LTOStatus::Uknown)
        } else if code == 1 {
            Some(LTOStatus::OptSuccess)
        } else if code == 2 {
            Some(LTOStatus::ReadSuccess)
        } else if code == 3 {
            Some(LTOStatus::ReadFailure)
        } else if code == 4 {
            Some(LTOStatus::WriteFailure)
        } else if code == 5 {
            Some(LTOStatus::NoTarget)
        } else if code == 6 {
            Some(LTOStatus::NoWork)
        } else if code == 7 {
            Some(LTOStatus::ModuleMergeFailure)
        } else if code == 8 {
            Some(LTOStatus::ASMFailure)
        } else if code == 9 {
            Some(LTOStatus::NullObject)
        } else {
            None
        }
    }

    /// The number by which the native side knows this status.
    pub fn code(self) -> (code: u32)
        ensures
            code == self.number(),
    {
        match self {
            LTOStatus::Uknown => 0,
            LTOStatus::OptSuccess => 1,
            LTOStatus::ReadSuccess => 2,
            LTOStatus::ReadFailure => 3,
            LTOStatus::WriteFailure => 4,
            LTOStatus::NoTarget => 5,
            LTOStatus::NoWork => 6,
            LTOStatus::ModuleMergeFailure => 7,
            LTOStatus::ASMFailure => 8,
            LTOStatus::NullObject => 9,
        }
    }

    /// Reads a status from the number the native side reports. A number that
    /// is not the number of a status gives `None`.
    pub fn from_code(code: u32) -> (status: Option<LTOStatus>)
        ensures
            status == LTOStatus::of_number(code),
    {
        match code {
            0 => Some(LTOStatus::Uknown),
            1 => Some(LTOStatus::OptSuccess),
            2 => Some(LTOStatus::ReadSuccess),
            3 => Some(LTOStatus::ReadFailure),
            4 => Some(LTOStatus::WriteFailure),
            5 => Some(LTOStatus::NoTarget),
            6 => Some(LTOStatus::NoWork),
            7 => Some(LTOStatus::ModuleMergeFailure),
            8 => Some(LTOStatus::ASMFailure),
            9 => Some(LTOStatus::NullObject),
            _ => None,
        }
    }
}

/// Reading back the number of a status gives that status, and a number that
/// reads as a status is the number of that status.
pub proof fn law_status_codes(status: LTOStatus, code: u32)
    ensures
        LTOStatus::of_number(status.number()) == Some(status),
        LTOStatus::of_number(code) == Some(status) ==> status.number() == code,
{
}

} // verus!
