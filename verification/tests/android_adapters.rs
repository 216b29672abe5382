use kiosk_core::adapters::clock::{Clock, MockClock};
use kiosk_core::adapters::device_locker::DeviceLockerError;
use kiosk_core::adapters::time_credit_storage::{GrantedTimeCredit, StorageError};
use kiosk_core::android::file_time_credit_storage::{CreditFileRead, FileTimeCreditStorage};
use kiosk_core::android::jni_bridge::{
    grant_args_from_jni, map_lock_result, map_use_case_result, ERR_INTERNAL_PANIC, ERR_LOCK_DEVICE,
    ERR_PIN_VALIDATION, ERR_TIME_CREDIT_STORAGE, RESULT_DENIED, RESULT_GRANTED, RESULT_OK,
};
use kiosk_core::android::kotlin_bridge::{
    device_outcome_from_bridge, grant_outcome_from_bridge, granted_from_bridge, NO_CREDIT_SENTINEL,
};
use kiosk_core::android::logging_device_locker::LoggingDeviceLocker;
use kiosk_core::android::simple_pin_validator::SimplePinValidator;
use kiosk_core::usecases::enforce_time_credit_use_case::TimeCreditPermission;
use kiosk_core::usecases::errors::UseCaseError;

#[test]
fn tmp_path_appends_suffix() {
    let storage = FileTimeCreditStorage::new("/data/files/credit.json".to_string());
    assert_eq!(storage.tmp_path(), "/data/files/credit.json.tmp");
    assert_eq!(storage.path(), "/data/files/credit.json");
}

#[test]
fn credit_file_reads() {
    assert_eq!(
        FileTimeCreditStorage::granted_until_from(CreditFileRead::Parsed { start: 3, end: 90 }),
        Ok(GrantedTimeCredit::Until { time: 90 })
    );
    assert_eq!(FileTimeCreditStorage::granted_until_from(CreditFileRead::Missing), Ok(GrantedTimeCredit::Denied));
    assert_eq!(
        FileTimeCreditStorage::granted_until_from(CreditFileRead::Unparsable),
        Err(StorageError::WriteError)
    );
    assert_eq!(
        FileTimeCreditStorage::granted_until_from(CreditFileRead::Unreadable),
        Err(StorageError::WriteError)
    );
}

#[test]
fn simple_pin_validator_accepts_only_its_pin() {
    let validator = SimplePinValidator::new(0);
    assert!(validator.validate(0));
    assert!(!validator.validate(1));
    assert!(!SimplePinValidator::new(200).validate(0));
}

#[test]
fn logging_device_locker_builds() {
    let _locker = LoggingDeviceLocker::new();
}

#[test]
fn mock_clock_answers_its_instant() {
    assert_eq!(MockClock::new(1788851260892).now(), 1788851260892);
}

#[test]
fn bridge_sentinel_means_no_credit() {
    assert_eq!(granted_from_bridge(NO_CREDIT_SENTINEL), GrantedTimeCredit::Denied);
    assert_eq!(granted_from_bridge(1700), GrantedTimeCredit::Until { time: 1700 });
    assert_eq!(granted_from_bridge(-2), GrantedTimeCredit::Until { time: u64::MAX - 1 });
}

#[test]
fn bridge_answers_succeed_only_when_confirmed() {
    assert_eq!(grant_outcome_from_bridge(Some(true)), Ok(()));
    assert_eq!(grant_outcome_from_bridge(Some(false)), Err(StorageError::WriteError));
    assert_eq!(grant_outcome_from_bridge(None), Err(StorageError::WriteError));
    assert_eq!(device_outcome_from_bridge(Some(true)), Ok(()));
    assert_eq!(device_outcome_from_bridge(Some(false)), Err(DeviceLockerError::Unknown));
    assert_eq!(device_outcome_from_bridge(None), Err(DeviceLockerError::Unknown));
}

#[test]
fn result_codes() {
    assert_eq!(map_lock_result(Ok(TimeCreditPermission::Granted)), RESULT_GRANTED);
    assert_eq!(map_lock_result(Ok(TimeCreditPermission::Denied)), RESULT_DENIED);
    assert_eq!(map_lock_result(Err(UseCaseError::LockDeviceFailure)), ERR_LOCK_DEVICE);
    assert_eq!(map_use_case_result(Ok(())), RESULT_OK);
    assert_eq!(map_use_case_result(Err(UseCaseError::TimeCreditStorageFailure)), ERR_TIME_CREDIT_STORAGE);
    assert_eq!(map_use_case_result(Err(UseCaseError::PinValidationFailure)), ERR_PIN_VALIDATION);
    assert_eq!(
        (RESULT_OK, RESULT_GRANTED, RESULT_DENIED, ERR_TIME_CREDIT_STORAGE, ERR_PIN_VALIDATION, ERR_LOCK_DEVICE, ERR_INTERNAL_PANIC),
        (0, 1, 2, -1, -2, -3, -100)
    );
}

#[test]
fn jni_grant_arguments() {
    let args = grant_args_from_jni(900, 123);
    assert_eq!(args.duration.as_secs(), 900);
    assert_eq!(args.pin, 123);
    let args = grant_args_from_jni(-5, 256 + 7);
    assert_eq!(args.duration.as_secs(), 0);
    assert_eq!(args.pin, 7);
}

#[test]
fn error_codes_are_distinct_failures() {
    let codes: Vec<i32> = [
        UseCaseError::TimeCreditStorageFailure,
        UseCaseError::PinValidationFailure,
        UseCaseError::LockDeviceFailure,
    ]
    .iter()
    .map(|e| map_use_case_result(Err(*e)))
    .collect();
    assert_eq!(codes, vec![-1, -2, -3]);
}
