use vstd::prelude::*;

verus! {

/// Why the device locker could not carry out a request.
#[derive(PartialEq, Eq, Debug, Clone, Copy, Structural)]
pub enum DeviceLockerError {
    Unknown,
}

} // verus!
