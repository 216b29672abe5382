//! Android side of the module: the logic of the concrete adapters and of the
//! JNI bridge, apart from the platform calls themselves.

pub mod file_time_credit_storage;
pub mod jni_bridge;
pub mod kotlin_bridge;
pub mod logging_device_locker;
pub mod simple_pin_validator;
