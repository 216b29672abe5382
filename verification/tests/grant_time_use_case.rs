use std::sync::{Arc, Mutex};
use std::time::Duration;

use kiosk_core::adapters::clock::MockClock;
use kiosk_core::adapters::device_locker::DeviceLockerError;
use kiosk_core::adapters::time_credit_storage::{StorageError, TimeCredit};
use kiosk_core::usecases::errors::UseCaseError;
use kiosk_core::usecases::grant_time_use_case::{
    GrantCommand, GrantReply, GrantStep, GrantTimeArgs, GrantTimeUseCase,
};

/// Records the credit it is asked to store, and fails with the configured error if any.
struct SpyTimeCreditStorage {
    grant_params: Mutex<Option<TimeCredit>>,
    grant_failure: Mutex<Option<StorageError>>,
}

impl SpyTimeCreditStorage {
    fn new() -> Self {
        Self { grant_params: Mutex::new(None), grant_failure: Mutex::new(None) }
    }
    fn grant_will_fail_with(&self, failure: StorageError) {
        *self.grant_failure.lock().unwrap() = Some(failure);
    }
    fn grant(&self, credit: TimeCredit) -> Result<(), StorageError> {
        *self.grant_params.lock().unwrap() = Some(credit);
        match *self.grant_failure.lock().unwrap() {
            Some(e) => Err(e),
            None => Ok(()),
        }
    }
    fn grant_was_called_with(&self, expected: TimeCredit) -> bool {
        *self.grant_params.lock().unwrap() == Some(expected)
    }
    fn grant_was_called(&self) -> bool {
        self.grant_params.lock().unwrap().is_some()
    }
}

struct FixedPinValidator {
    accepts: bool,
}

impl FixedPinValidator {
    fn validate(&self, _pin: u8) -> bool {
        self.accepts
    }
}

struct SpyDeviceLocker {
    unlock_was_called: Mutex<bool>,
    fails: bool,
}

impl SpyDeviceLocker {
    fn new(fails: bool) -> Self {
        SpyDeviceLocker { unlock_was_called: Mutex::new(false), fails }
    }
    fn unlock_now(&self) -> Result<(), DeviceLockerError> {
        *self.unlock_was_called.lock().unwrap() = true;
        if self.fails {
            Err(DeviceLockerError::Unknown)
        } else {
            Ok(())
        }
    }
    fn unlock_was_called(&self) -> bool {
        *self.unlock_was_called.lock().unwrap()
    }
}

type UseCase = GrantTimeUseCase<SpyTimeCreditStorage, MockClock, FixedPinValidator, SpyDeviceLocker>;

fn setup(
    time_credit_storage: Arc<SpyTimeCreditStorage>,
    clock: Arc<MockClock>,
    pin_validator: Arc<FixedPinValidator>,
    device_locker: Arc<SpyDeviceLocker>,
) -> UseCase {
    GrantTimeUseCase::new(time_credit_storage, clock, pin_validator, device_locker)
}

/// Runs the use case to its end, answering each command with the test ports.
fn execute(use_case: &UseCase, args: GrantTimeArgs) -> Result<(), UseCaseError> {
    let mut step = use_case.start(args);
    loop {
        let reply = match step.command() {
            GrantCommand::ValidatePin { pin } => GrantReply::PinChecked(use_case.pin_validator().validate(pin)),
            GrantCommand::Grant { credit } => GrantReply::Stored(use_case.time_storage().grant(credit)),
            GrantCommand::UnlockNow => GrantReply::Device(use_case.device_locker().unlock_now()),
            GrantCommand::Return { outcome } => return outcome,
        };
        assert!(step.accepts(&reply));
        assert!(!step.overflows_with(&reply), "attempt to add with overflow");
        step = step.next(reply);
    }
}

#[test]
fn it_successfully_grants_time() {
    let time_credit_storage = Arc::new(SpyTimeCreditStorage::new());
    let clock = Arc::new(MockClock::new(1788851260892));
    let pin_validator = Arc::new(FixedPinValidator { accepts: true });
    let device_locker = Arc::new(SpyDeviceLocker::new(false));

    let use_case = setup(
        Arc::clone(&time_credit_storage),
        Arc::clone(&clock),
        Arc::clone(&pin_validator),
        Arc::clone(&device_locker),
    );
    let result = execute(&use_case, GrantTimeArgs { duration: Duration::from_secs(12), pin: 123 });
    assert_eq!(result, Ok(()));
    assert_eq!(
        time_credit_storage.grant_was_called_with(TimeCredit { start: 1788851260892, end: 1788851260892 + 12 }),
        true
    );
    assert_eq!(device_locker.unlock_was_called(), true)
}

#[test]
fn grant_storage_fails() {
    let failure_storage = SpyTimeCreditStorage::new();
    failure_storage.grant_will_fail_with(StorageError::WriteError);
    let time_credit_storage = Arc::new(failure_storage);

    let clock = Arc::new(MockClock::new(1788851260892));
    let pin_validator = Arc::new(FixedPinValidator { accepts: true });
    let device_locker = Arc::new(SpyDeviceLocker::new(false));

    let use_case = setup(
        Arc::clone(&time_credit_storage),
        Arc::clone(&clock),
        Arc::clone(&pin_validator),
        Arc::clone(&device_locker),
    );

    let result = execute(&use_case, GrantTimeArgs { duration: Duration::from_secs(12), pin: 123 });
    assert_eq!(result, Err(UseCaseError::TimeCreditStorageFailure));
    assert!(!device_locker.unlock_was_called());
}

#[test]
fn pin_validation_fails() {
    let time_credit_storage = Arc::new(SpyTimeCreditStorage::new());
    let clock = Arc::new(MockClock::new(1788851260892));
    let pin_validator = Arc::new(FixedPinValidator { accepts: false });
    let device_locker = Arc::new(SpyDeviceLocker::new(false));

    let use_case = setup(
        Arc::clone(&time_credit_storage),
        Arc::clone(&clock),
        Arc::clone(&pin_validator),
        Arc::clone(&device_locker),
    );
    let result = execute(&use_case, GrantTimeArgs { duration: Duration::from_secs(12), pin: 123 });
    assert_eq!(result, Err(UseCaseError::PinValidationFailure));
    assert!(!time_credit_storage.grant_was_called());
    assert!(!device_locker.unlock_was_called());
}

#[test]
fn failing_unlock_reports_lock_device_failure() {
    let time_credit_storage = Arc::new(SpyTimeCreditStorage::new());
    let device_locker = Arc::new(SpyDeviceLocker::new(true));
    let use_case = setup(
        Arc::clone(&time_credit_storage),
        Arc::new(MockClock::new(40)),
        Arc::new(FixedPinValidator { accepts: true }),
        Arc::clone(&device_locker),
    );
    let result = execute(&use_case, GrantTimeArgs { duration: Duration::from_secs(3), pin: 1 });
    assert_eq!(result, Err(UseCaseError::LockDeviceFailure));
    assert!(time_credit_storage.grant_was_called_with(TimeCredit { start: 40, end: 43 }));
}

#[test]
fn fractional_seconds_are_dropped() {
    let time_credit_storage = Arc::new(SpyTimeCreditStorage::new());
    let use_case = setup(
        Arc::clone(&time_credit_storage),
        Arc::new(MockClock::new(1000)),
        Arc::new(FixedPinValidator { accepts: true }),
        Arc::new(SpyDeviceLocker::new(false)),
    );
    let result = execute(&use_case, GrantTimeArgs { duration: Duration::from_millis(2999), pin: 1 });
    assert_eq!(result, Ok(()));
    assert!(time_credit_storage.grant_was_called_with(TimeCredit { start: 1000, end: 1002 }));
}

#[test]
fn start_reads_the_clock_and_the_request() {
    let use_case = setup(
        Arc::new(SpyTimeCreditStorage::new()),
        Arc::new(MockClock::new(7)),
        Arc::new(FixedPinValidator { accepts: true }),
        Arc::new(SpyDeviceLocker::new(false)),
    );
    let step = use_case.start(GrantTimeArgs { duration: Duration::from_secs(30), pin: 42 });
    assert_eq!(step, GrantStep::AwaitingPin { now: 7, secs: 30, pin: 42 });
    assert_eq!(step.command(), GrantCommand::ValidatePin { pin: 42 });
}

#[test]
fn overflowing_end_is_detected() {
    let step = GrantStep::AwaitingPin { now: u64::MAX - 1, secs: 2, pin: 0 };
    assert!(step.overflows_with(&GrantReply::PinChecked(true)));
    assert!(!step.overflows_with(&GrantReply::PinChecked(false)));
    let step = GrantStep::AwaitingPin { now: u64::MAX - 2, secs: 2, pin: 0 };
    assert!(!step.overflows_with(&GrantReply::PinChecked(true)));
    assert_eq!(
        step.next(GrantReply::PinChecked(true)),
        GrantStep::AwaitingGrant { credit: TimeCredit { start: u64::MAX - 2, end: u64::MAX } }
    );
}
