use vstd::prelude::*;

use crate::adapters::device_locker::DeviceLockerError;
use crate::adapters::time_credit_storage::{GrantedTimeCredit, StorageError};

verus! {

/// What the Kotlin storage bridge answers for `grantedUntil()` when no credit
/// was ever granted.
pub const NO_CREDIT_SENTINEL: i64 = -1;

/// The raw value under which the Kotlin bridge is handed an instant: its
/// bits, reinterpreted as a signed `long`.
pub fn bridge_instant(instant: u64) -> (raw: i64)
    ensures
        raw == instant as i64,
{
    instant as i64
}

/// The credit that a raw `grantedUntil()` answer of the Kotlin storage
/// bridge stands for: the sentinel means none, any other value is the end of
/// the credit, reinterpreted as an unsigned instant.
pub open spec fn credit_of_bridge_value(raw: i64) -> GrantedTimeCredit {
    if raw == NO_CREDIT_SENTINEL {
        GrantedTimeCredit::Denied
    } else {
        GrantedTimeCredit::Until { time: raw as u64 }
    }
}

/// The credit that a raw `grantedUntil()` answer of the Kotlin storage
/// bridge stands for (see [`credit_of_bridge_value`]).
pub fn granted_from_bridge(raw: i64) -> (granted: GrantedTimeCredit)
    ensures
        granted == credit_of_bridge_value(raw),
{
    if raw == NO_CREDIT_SENTINEL {
        GrantedTimeCredit::Denied
    } else {
        GrantedTimeCredit::Until { time: raw as u64 }
    }
}

/// An instant handed to the Kotlin bridge reads back as a credit running
/// until that same instant, except for the largest instant, whose raw value
/// is the sentinel and so reads back as no credit.
pub proof fn law_bridge_instant_reads_back(instant: u64)
    ensures
        instant != u64::MAX ==> credit_of_bridge_value(instant as i64) == (GrantedTimeCredit::Until {
            time: instant,
        }),
        instant == u64::MAX ==> credit_of_bridge_value(instant as i64) == GrantedTimeCredit::Denied,
{
    assert(instant == u64::MAX <==> instant as i64 == -1i64) by (bit_vector);
    assert((instant as i64) as u64 == instant) by (bit_vector);
}

/// What the storage answers for a `grant(start, end)` call on the Kotlin
/// bridge: `confirmed` is the boolean the bridge returned, or `None` when the
/// call failed or returned no boolean. Only a confirmed write succeeds.
pub fn grant_outcome_from_bridge(confirmed: Option<bool>) -> (outcome: Result<(), StorageError>)
    ensures
        confirmed == Some(true) ==> outcome is Ok,
        confirmed != Some(true) ==> outcome == Err::<(), StorageError>(StorageError::WriteError),
{
    match confirmed {
        Some(true) => Ok(()),
        _ => Err(StorageError::WriteError),
    }
}

/// What the device locker answers for a call on the Kotlin lock-task bridge:
/// `confirmed` as above; only a call that returned `true` succeeds.
pub fn device_outcome_from_bridge(confirmed: Option<bool>) -> (outcome: Result<(), DeviceLockerError>)
    ensures
        confirmed == Some(true) ==> outcome is Ok,
        confirmed != Some(true) ==> outcome == Err::<(), DeviceLockerError>(DeviceLockerError::Unknown),
{
    match confirmed {
        Some(true) => Ok(()),
        _ => Err(DeviceLockerError::Unknown),
    }
}

} // verus!
