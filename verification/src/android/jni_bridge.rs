use vstd::prelude::*;

use crate::duration::{duration_from_secs, duration_whole_secs};
use crate::usecases::enforce_time_credit_use_case::TimeCreditPermission;
use crate::usecases::errors::UseCaseError;
use crate::usecases::grant_time_use_case::GrantTimeArgs;

verus! {

// Stable return codes read by the Kotlin side (a JNI `jint`, which is `i32`).
pub const RESULT_OK: i32 = 0;
pub const RESULT_GRANTED: i32 = 1;
pub const RESULT_DENIED: i32 = 2;
pub const ERR_TIME_CREDIT_STORAGE: i32 = -1;
pub const ERR_PIN_VALIDATION: i32 = -2;
pub const ERR_LOCK_DEVICE: i32 = -3;
pub const ERR_INTERNAL_PANIC: i32 = -100;

/// The code that reports `error`.
pub open spec fn error_code(error: UseCaseError) -> i32 {
    match error {
        UseCaseError::TimeCreditStorageFailure => ERR_TIME_CREDIT_STORAGE,
        UseCaseError::PinValidationFailure => ERR_PIN_VALIDATION,
        UseCaseError::LockDeviceFailure => ERR_LOCK_DEVICE,
    }
}

/// The code that reports the outcome of an enforcement (lock) run.
pub open spec fn lock_result_code(result: Result<TimeCreditPermission, UseCaseError>) -> i32 {
    match result {
        Ok(TimeCreditPermission::Granted) => RESULT_GRANTED,
        Ok(TimeCreditPermission::Denied) => RESULT_DENIED,
        Err(e) => error_code(e),
    }
}

/// The code that reports the outcome of a use case that returns nothing.
pub open spec fn use_case_result_code(result: Result<(), UseCaseError>) -> i32 {
    match result {
        Ok(_) => RESULT_OK,
        Err(e) => error_code(e),
    }
}

pub fn map_lock_result(result: Result<TimeCreditPermission, UseCaseError>) -> (code: i32)
    ensures
        code == lock_result_code(result),
{
    match result {
        Ok(TimeCreditPermission::Granted) => RESULT_GRANTED,
        Ok(TimeCreditPermission::Denied) => RESULT_DENIED,
        Err(e) => map_use_case_error_code(e),
    }
}

pub fn map_use_case_result(result: Result<(), UseCaseError>) -> (code: i32)
    ensures
        code == use_case_result_code(result),
{
    match result {
        Ok(()) => RESULT_OK,
        Err(e) => map_use_case_error_code(e),
    }
}

fn map_use_case_error_code(error: UseCaseError) -> (code: i32)
    ensures
        code == error_code(error),
{
    match error {
        UseCaseError::TimeCreditStorageFailure => ERR_TIME_CREDIT_STORAGE,
        UseCaseError::PinValidationFailure => ERR_PIN_VALIDATION,
        UseCaseError::LockDeviceFailure => ERR_LOCK_DEVICE,
    }
}

/// The arguments of a grant received over JNI: a negative duration counts as
/// zero seconds, and the PIN keeps the low byte of the `jint`.
pub fn grant_args_from_jni(duration_secs: i64, pin: i32) -> (args: GrantTimeArgs)
    ensures
        duration_whole_secs(args.duration) == (if duration_secs < 0 {
            0
        } else {
            duration_secs as u64
        }),
        args.pin == pin as u8,
{
    let secs: u64 = if duration_secs < 0 {
        0
    } else {
        duration_secs as u64
    };
    GrantTimeArgs { duration: duration_from_secs(secs), pin: pin as u8 }
}

/// Every failure has its own code, one of -1, -2 and -3: never a success
/// code (0, 1 or 2) nor the code of an internal panic (-100).
pub proof fn law_error_codes_are_distinct_failures(e1: UseCaseError, e2: UseCaseError)
    ensures
        error_code(e1) == ERR_TIME_CREDIT_STORAGE || error_code(e1) == ERR_PIN_VALIDATION
            || error_code(e1) == ERR_LOCK_DEVICE,
        e1 != e2 ==> error_code(e1) != error_code(e2),
        error_code(e1) != RESULT_OK && error_code(e1) != RESULT_GRANTED && error_code(e1)
            != RESULT_DENIED,
        error_code(e1) != ERR_INTERNAL_PANIC,
{
}

/// A failure is reported with the same code whichever use case it ends, and
/// that code names the failure: a storage failure is `ERR_TIME_CREDIT_STORAGE`,
/// a rejected PIN `ERR_PIN_VALIDATION`, a device failure `ERR_LOCK_DEVICE`.
pub proof fn law_failure_codes_name_the_failure(error: UseCaseError)
    ensures
        lock_result_code(Err(error)) == use_case_result_code(Err(error)),
        error == UseCaseError::TimeCreditStorageFailure ==> lock_result_code(Err(error))
            == ERR_TIME_CREDIT_STORAGE,
        error == UseCaseError::PinValidationFailure ==> lock_result_code(Err(error))
            == ERR_PIN_VALIDATION,
        error == UseCaseError::LockDeviceFailure ==> lock_result_code(Err(error)) == ERR_LOCK_DEVICE,
        error == UseCaseError::TimeCreditStorageFailure ==> use_case_result_code(Err(error))
            == ERR_TIME_CREDIT_STORAGE,
        error == UseCaseError::PinValidationFailure ==> use_case_result_code(Err(error))
            == ERR_PIN_VALIDATION,
        error == UseCaseError::LockDeviceFailure ==> use_case_result_code(Err(error))
            == ERR_LOCK_DEVICE,
{
}

/// A success is reported by the code that names it: a granted enforcement
/// by `RESULT_GRANTED`, a denied one by `RESULT_DENIED`, and a use case that
/// returns nothing by `RESULT_OK`.
pub proof fn law_success_codes_name_the_outcome(done: Result<(), UseCaseError>)
    ensures
        lock_result_code(Ok(TimeCreditPermission::Granted)) == RESULT_GRANTED,
        lock_result_code(Ok(TimeCreditPermission::Denied)) == RESULT_DENIED,
        done is Ok ==> use_case_result_code(done) == RESULT_OK,
{
}

/// Each code reports one outcome: distinct outcomes of the same use case get
/// distinct codes, successes are reported by non-negative codes and failures
/// by negative ones, and none of them is the code of an internal panic.
pub proof fn law_codes_tell_outcomes_apart(
    a: Result<TimeCreditPermission, UseCaseError>,
    b: Result<TimeCreditPermission, UseCaseError>,
    c: Result<(), UseCaseError>,
    d: Result<(), UseCaseError>,
)
    ensures
        lock_result_code(a) == lock_result_code(b) ==> a == b,
        use_case_result_code(c) == use_case_result_code(d) ==> (c is Ok && d is Ok) || c == d,
        a is Ok <==> lock_result_code(a) >= 0,
        c is Ok <==> use_case_result_code(c) >= 0,
        lock_result_code(a) != ERR_INTERNAL_PANIC,
        use_case_result_code(c) != ERR_INTERNAL_PANIC,
{
}

} // verus!
