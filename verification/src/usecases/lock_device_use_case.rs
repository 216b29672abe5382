use std::sync::Arc;

use vstd::prelude::*;

use crate::adapters::device_locker::DeviceLockerError;
use crate::usecases::errors::UseCaseError;

verus! {

/// Locks the device now: one call to the device locker, whose failure is
/// reported as `LockDeviceFailure`.
pub struct LockDeviceUseCase<DL> {
    device_locker: Arc<DL>,
}

/// Where a run of [`LockDeviceUseCase`] stands.
#[derive(PartialEq, Eq, Clone, Copy, Debug)]
pub enum LockStep {
    /// The device is being locked.
    AwaitingLock,
    /// The run is over, with this outcome.
    Finished { outcome: Result<(), UseCaseError> },
}

/// The port call that a step waits for, or the outcome of a finished run.
#[derive(PartialEq, Eq, Clone, Copy, Debug)]
pub enum LockCommand {
    LockNow,
    Return { outcome: Result<(), UseCaseError> },
}

/// The outcome of the use case once the device locker answered `locked`.
pub open spec fn lock_outcome(locked: Result<(), DeviceLockerError>) -> Result<(), UseCaseError> {
    match locked {
        Ok(_) => Ok(()),
        Err(_) => Err(UseCaseError::LockDeviceFailure),
    }
}

impl LockStep {
    /// The command that this step waits on.
    pub open spec fn pending(self) -> LockCommand {
        match self {
            LockStep::AwaitingLock => LockCommand::LockNow,
            LockStep::Finished { outcome } => LockCommand::Return { outcome },
        }
    }

    /// The step reached when the device locker answers `locked`; a finished
    /// run stays as it is.
    pub open spec fn after(self, locked: Result<(), DeviceLockerError>) -> LockStep {
        match self {
            LockStep::AwaitingLock => LockStep::Finished { outcome: lock_outcome(locked) },
            LockStep::Finished { .. } => self,
        }
    }

    /// The command this step waits on.
    pub fn command(&self) -> (command: LockCommand)
        ensures
            command == self.pending(),
    {
        match *self {
            LockStep::AwaitingLock => LockCommand::LockNow,
            LockStep::Finished { outcome } => LockCommand::Return { outcome },
        }
    }

    /// Moves the run forward with the device locker's answer.
    pub fn next(self, locked: Result<(), DeviceLockerError>) -> (step: LockStep)
        requires
            self is AwaitingLock,
        ensures
            step == self.after(locked),
    {
        match locked {
            Ok(()) => LockStep::Finished { outcome: Ok(()) },
            Err(_) => LockStep::Finished { outcome: Err(UseCaseError::LockDeviceFailure) },
        }
    }
}

impl<DL> LockDeviceUseCase<DL> {
    pub closed spec fn locker(&self) -> Arc<DL> {
        self.device_locker
    }

    pub fn new(device_locker: Arc<DL>) -> (use_case: Self)
        ensures
            use_case.locker() == device_locker,
    {
        LockDeviceUseCase { device_locker }
    }

    /// The port that locks the device.
    pub fn device_locker(&self) -> (port: &Arc<DL>)
        ensures
            *port == self.locker(),
    {
        &self.device_locker
    }

    /// Starts a run: the device is to be locked now.
    pub fn start(&self) -> (step: LockStep)
        ensures
            step == LockStep::AwaitingLock,
    {
        LockStep::AwaitingLock
    }

    /// The outcome of the use case once the device locker answered `locked`.
    pub fn outcome(locked: Result<(), DeviceLockerError>) -> (outcome: Result<(), UseCaseError>)
        ensures
            outcome == lock_outcome(locked),
    {
        match locked {
            Ok(()) => Ok(()),
            Err(_) => Err(UseCaseError::LockDeviceFailure),
        }
    }
}

/// A run asks the device locker for exactly one call, `LockNow`, and then
/// returns `Ok` when the locker succeeded and `LockDeviceFailure` when it
/// failed; nothing is unlocked or scheduled, and the run takes no more
/// answers.
pub proof fn law_lock_device_locks_once(locked: Result<(), DeviceLockerError>)
    ensures
        LockStep::AwaitingLock.pending() == LockCommand::LockNow,
        LockStep::AwaitingLock.after(locked).pending() == (LockCommand::Return {
            outcome: lock_outcome(locked),
        }),
        locked is Ok ==> lock_outcome(locked) is Ok,
        locked is Err ==> lock_outcome(locked) == Err::<(), UseCaseError>(UseCaseError::LockDeviceFailure),
        LockStep::AwaitingLock.after(locked) is Finished,
{
}

} // verus!
