pub mod clock;
pub mod device_locker;
pub mod time_credit_storage;
