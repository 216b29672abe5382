use std::sync::{Arc, Mutex};

use kiosk_core::adapters::device_locker::DeviceLockerError;
use kiosk_core::usecases::errors::{lock_failure, UseCaseError};
use kiosk_core::usecases::lock_device_use_case::{LockCommand, LockDeviceUseCase, LockStep};

/// Records the calls it gets, and answers them with the configured result.
struct SpyDeviceLocker {
    calls: Mutex<Vec<&'static str>>,
    fails: bool,
}

impl SpyDeviceLocker {
    fn new() -> Self {
        SpyDeviceLocker { calls: Mutex::new(Vec::new()), fails: false }
    }
    fn lock_now(&self) -> Result<(), DeviceLockerError> {
        self.calls.lock().unwrap().push("lock_now");
        if self.fails {
            Err(DeviceLockerError::Unknown)
        } else {
            Ok(())
        }
    }
    fn lock_was_called(&self) -> bool {
        self.calls.lock().unwrap().contains(&"lock_now")
    }
    fn calls(&self) -> Vec<&'static str> {
        self.calls.lock().unwrap().clone()
    }
}

struct FailureDeviceLocker {}

impl FailureDeviceLocker {
    fn new() -> SpyDeviceLocker {
        SpyDeviceLocker { calls: Mutex::new(Vec::new()), fails: true }
    }
}

/// Runs the use case to its end, answering each command with the test locker.
fn execute(use_case: &LockDeviceUseCase<SpyDeviceLocker>) -> Result<(), UseCaseError> {
    let mut step = use_case.start();
    loop {
        match step.command() {
            LockCommand::LockNow => step = step.next(use_case.device_locker().lock_now()),
            LockCommand::Return { outcome } => return outcome,
        }
    }
}

#[test]
fn it_successfully_locks_device() {
    let device_locker = Arc::new(SpyDeviceLocker::new());

    let use_case = LockDeviceUseCase::new(Arc::clone(&device_locker));
    let result = execute(&use_case);
    assert_eq!(result, Ok(()));
    assert_eq!(device_locker.lock_was_called(), true)
}

#[test]
fn it_fails_locks_device() {
    let device_locker = Arc::new(FailureDeviceLocker::new());

    let use_case = LockDeviceUseCase::new(Arc::clone(&device_locker));
    let result = execute(&use_case);
    assert_eq!(result, Err(UseCaseError::LockDeviceFailure));
}

#[test]
fn it_asks_for_exactly_one_lock() {
    let device_locker = Arc::new(SpyDeviceLocker::new());
    let use_case = LockDeviceUseCase::new(Arc::clone(&device_locker));
    assert_eq!(use_case.start(), LockStep::AwaitingLock);
    assert_eq!(use_case.start().command(), LockCommand::LockNow);
    execute(&use_case).unwrap();
    assert_eq!(device_locker.calls(), vec!["lock_now"]);
}

#[test]
fn lock_outcomes() {
    assert_eq!(LockDeviceUseCase::<SpyDeviceLocker>::outcome(Ok(())), Ok(()));
    assert_eq!(
        LockDeviceUseCase::<SpyDeviceLocker>::outcome(Err(DeviceLockerError::Unknown)),
        Err(UseCaseError::LockDeviceFailure)
    );
    assert_eq!(
        LockStep::AwaitingLock.next(Err(DeviceLockerError::Unknown)).command(),
        LockCommand::Return { outcome: Err(UseCaseError::LockDeviceFailure) }
    );
}

#[test]
fn any_failure_maps_to_lock_device_failure() {
    assert_eq!(lock_failure(DeviceLockerError::Unknown), UseCaseError::LockDeviceFailure);
    assert_eq!(lock_failure("storage"), UseCaseError::LockDeviceFailure);
}
