use vstd::prelude::*;

verus! {

/// Accepts exactly one PIN, fixed when it is built.
pub struct SimplePinValidator {
    expected_pin: u8,
}

impl SimplePinValidator {
    /// The PIN this validator accepts.
    pub closed spec fn accepted_pin(&self) -> u8 {
        self.expected_pin
    }

    pub fn new(expected_pin: u8) -> (validator: Self)
        ensures
            validator.accepted_pin() == expected_pin,
    {
        SimplePinValidator { expected_pin }
    }

    /// Whether `pin` is the accepted PIN.
    pub fn validate(&self, pin: u8) -> (valid: bool)
        ensures
            valid == (pin == self.accepted_pin()),
    {
        pin == self.expected_pin
    }
}

} // verus!
