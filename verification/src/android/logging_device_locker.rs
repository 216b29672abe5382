use vstd::prelude::*;

verus! {

/// A device locker that only logs the calls it gets, to exercise the whole
/// JNI pipeline without any device-owner privilege.
pub struct LoggingDeviceLocker;

impl LoggingDeviceLocker {
    pub fn new() -> (locker: Self) {
        LoggingDeviceLocker
    }
}

} // verus!
