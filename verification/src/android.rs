//! Android: native window data spaces and the AAudio output.

use vstd::prelude::*;

pub mod aaudio;

verus! {

/// The extended linear scRGB data space.
pub const ADATASPACE_SCRGB_LINEAR: i32 = 0x1841_0000;

#[derive(Debug, Clone, Copy, PartialEq, Eq, Structural)]
pub enum AndroidDataSpaceErrorKind {
    ApiUnavailable,
    VerificationFailed,
}

#[derive(Debug, Clone, PartialEq, Eq)]
pub struct AndroidDataSpaceError {
    pub kind: AndroidDataSpaceErrorKind,
    pub message: String,
}

impl AndroidDataSpaceError {
    pub fn api_unavailable(message: String) -> (error: Self)
        ensures
            error.kind == AndroidDataSpaceErrorKind::ApiUnavailable,
            error.message == message,
    {
        AndroidDataSpaceError { kind: AndroidDataSpaceErrorKind::ApiUnavailable, message }
    }

    pub fn verification_failed(message: String) -> (error: Self)
        ensures
            error.kind == AndroidDataSpaceErrorKind::VerificationFailed,
            error.message == message,
    {
        AndroidDataSpaceError { kind: AndroidDataSpaceErrorKind::VerificationFailed, message }
    }
}

#[derive(Debug, Clone, Copy, PartialEq, Eq, Structural)]
pub struct AndroidDataSpaceVerification {
    pub before: i32,
    pub after: i32,
    pub corrected: bool,
}

/// Where the verification of a window's data space stands.
#[derive(Debug, Clone, Copy, PartialEq, Eq, Structural)]
pub enum DataSpaceCheck {
    /// The window has the wanted data space.
    Verified(AndroidDataSpaceVerification),
    /// The wanted data space is to be set.
    Correct { before: i32 },
    /// The data space was set and is to be read back.
    ReadBack { before: i32 },
    /// The window refused the wanted data space.
    SetFailed { before: i32, result: i32 },
    /// The window reports another data space than was set.
    Mismatch { before: i32, after: i32 },
}

impl DataSpaceCheck {
    /// Where a check stands that has found the data space `before`.
    pub open spec fn observed(before: i32) -> Self {
        if before == ADATASPACE_SCRGB_LINEAR {
            DataSpaceCheck::Verified(
                AndroidDataSpaceVerification { before, after: before, corrected: false },
            )
        } else {
            DataSpaceCheck::Correct { before }
        }
    }

    /// Looks at the data space that the window has.
    pub fn observe(before: i32) -> (check: Self)
        ensures
            check == DataSpaceCheck::observed(before),
    {
        if before == ADATASPACE_SCRGB_LINEAR {
            DataSpaceCheck::Verified(
                AndroidDataSpaceVerification { before, after: before, corrected: false },
            )
        } else {
            DataSpaceCheck::Correct { before }
        }
    }

    /// Goes on with what the window answered: the result of setting the data
    /// space, then the data space read back. A check that is over stays as it
    /// is.
    pub fn answered(self, value: i32) -> (check: Self)
        ensures
            check == self.after_answer(value),
    {
        match self {
            DataSpaceCheck::Correct { before } => if value != 0 {
                DataSpaceCheck::SetFailed { before, result: value }
            } else {
                DataSpaceCheck::ReadBack { before }
            },
            DataSpaceCheck::ReadBack { before } => if value != ADATASPACE_SCRGB_LINEAR {
                DataSpaceCheck::Mismatch { before, after: value }
            } else {
                DataSpaceCheck::Verified(
                    AndroidDataSpaceVerification { before, after: value, corrected: true },
                )
            },
            other => other,
        }
    }

    /// How the check ended, once no step is left: with the data space in place, or
    /// with a failed verification.
    pub open spec fn ended(self) -> Option<
        Result<AndroidDataSpaceVerification, AndroidDataSpaceErrorKind>,
    > {
        match self {
            DataSpaceCheck::Verified(verification) => Some(Ok(verification)),
            DataSpaceCheck::SetFailed { .. } | DataSpaceCheck::Mismatch { .. } => Some(
                Err(AndroidDataSpaceErrorKind::VerificationFailed),
            ),
            DataSpaceCheck::Correct { .. } | DataSpaceCheck::ReadBack { .. } => None,
        }
    }

    pub fn outcome(&self) -> (outcome: Option<
        Result<AndroidDataSpaceVerification, AndroidDataSpaceErrorKind>,
    >)
        ensures
            outcome == self.ended(),
    {
        match *self {
            DataSpaceCheck::Verified(verification) => Some(Ok(verification)),
            DataSpaceCheck::SetFailed { .. } | DataSpaceCheck::Mismatch { .. } => Some(
                Err(AndroidDataSpaceErrorKind::VerificationFailed),
            ),
            DataSpaceCheck::Correct { .. } | DataSpaceCheck::ReadBack { .. } => None,
        }
    }

    pub open spec fn after_answer(self, value: i32) -> Self {
        match self {
            DataSpaceCheck::Correct { before } => if value != 0 {
                DataSpaceCheck::SetFailed { before, result: value }
            } else {
                DataSpaceCheck::ReadBack { before }
            },
            DataSpaceCheck::ReadBack { before } => if value != ADATASPACE_SCRGB_LINEAR {
                DataSpaceCheck::Mismatch { before, after: value }
            } else {
                DataSpaceCheck::Verified(
                    AndroidDataSpaceVerification { before, after: value, corrected: true },
                )
            },
            other => other,
        }
    }
}

/// A verification needs the symbols for reading and for setting a window's data
/// space. Where the platform lacks one, there is nothing to verify with.
pub fn check_data_space_api(can_set: bool, can_get: bool) -> (checked: Result<
    (),
    AndroidDataSpaceErrorKind,
>)
    ensures
        checked == if can_set && can_get {
            Ok::<(), AndroidDataSpaceErrorKind>(())
        } else {
            Err(AndroidDataSpaceErrorKind::ApiUnavailable)
        },
{
    if can_set && can_get {
        Ok(())
    } else {
        Err(AndroidDataSpaceErrorKind::ApiUnavailable)
    }
}

/// What a verification comes to, where `before` is the data space that the window
/// had, `set_result` what setting the wanted one gave, and `after` what was read
/// back.
pub open spec fn data_space_outcome(before: i32, set_result: i32, after: i32) -> Result<
    AndroidDataSpaceVerification,
    AndroidDataSpaceErrorKind,
> {
    if before == ADATASPACE_SCRGB_LINEAR {
        Ok(AndroidDataSpaceVerification { before, after: before, corrected: false })
    } else if set_result == 0 && after == ADATASPACE_SCRGB_LINEAR {
        Ok(AndroidDataSpaceVerification { before, after, corrected: true })
    } else {
        Err(AndroidDataSpaceErrorKind::VerificationFailed)
    }
}

/// A verification ends well only with the wanted data space in place, counts as
/// corrected exactly when the window did not have it at first, and fails as a
/// verification otherwise. A window that has the data space is never set.
pub proof fn lemma_verification_ends_as_told(before: i32, set_result: i32, after: i32)
    ensures
        ({
            let check = DataSpaceCheck::observed(before);
            let answered = check.after_answer(set_result).after_answer(after);
            let outcome = data_space_outcome(before, set_result, after);
            &&& answered.ended() == Some(outcome)
            &&& check.ended() is Some <==> before == ADATASPACE_SCRGB_LINEAR
            &&& check.ended() is Some ==> check.ended() == Some(outcome)
            &&& set_result != 0 ==> check.after_answer(set_result).ended() == Some(outcome)
            &&& outcome matches Ok(verification) ==> verification.after
                == ADATASPACE_SCRGB_LINEAR
        }),
{
}

/// A window whose data space is linear scRGB is left alone. Any other is set, and it
/// is verified only where the setting succeeded and reading it back gives linear
/// scRGB; what is reported says what was there before and that it was corrected.
pub proof fn lemma_data_space_is_set_and_read_back(before: i32, set_result: i32, after: i32)
    ensures
        ({
            let check = DataSpaceCheck::observed(before);
            let ended = check.after_answer(set_result).after_answer(after).ended();
            &&& before == 0x1841_0000 ==> check.ended() == Some(
                Ok::<AndroidDataSpaceVerification, AndroidDataSpaceErrorKind>(
                    AndroidDataSpaceVerification { before, after: before, corrected: false },
                ),
            )
            &&& before != 0x1841_0000 ==> check.ended() is None
            &&& before != 0x1841_0000 && set_result == 0 && after == 0x1841_0000 ==> ended == Some(
                Ok::<AndroidDataSpaceVerification, AndroidDataSpaceErrorKind>(
                    AndroidDataSpaceVerification { before, after, corrected: true },
                ),
            )
            &&& before != 0x1841_0000 && !(set_result == 0 && after == 0x1841_0000) ==> ended
                == Some(
                Err::<AndroidDataSpaceVerification, AndroidDataSpaceErrorKind>(
                    AndroidDataSpaceErrorKind::VerificationFailed,
                ),
            )
        }),
{
}

} // verus!
