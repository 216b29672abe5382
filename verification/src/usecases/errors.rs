use vstd::prelude::*;

verus! {

/// Why a use case could not complete.
#[derive(PartialEq, Eq, Debug, Clone, Copy, Structural)]
pub enum UseCaseError {
    TimeCreditStorageFailure,
    PinValidationFailure,
    LockDeviceFailure,
}

/// Maps any port failure to [`UseCaseError::LockDeviceFailure`].
pub fn lock_failure<E>(_error: E) -> (err: UseCaseError)
    ensures
        err == UseCaseError::LockDeviceFailure,
{
    UseCaseError::LockDeviceFailure
}

} // verus!
