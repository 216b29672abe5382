pub mod enforce_time_credit_use_case;
pub mod errors;
pub mod grant_time_use_case;
pub mod lock_device_use_case;
pub mod lifecycle;
