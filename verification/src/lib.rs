//! Business core of the kiosk module: a device stays locked by default, and a
//! PIN-protected grant of time unlocks it until the credit runs out.
//!
//! The use cases are written as state machines: each one says which port
//! (clock, storage, PIN validator, device locker, lock-state notifier) must be
//! called next, and how the answer of that port moves the run forward. The
//! asynchronous ports themselves are driven by the host application.

pub mod adapters;
pub mod android;
pub mod duration;
pub mod usecases;
