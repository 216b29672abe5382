use vstd::prelude::*;

verus! {

/// A span of unlocked time: granted at `start`, running out at `end`.
#[derive(PartialEq, Eq, Debug, Clone, Copy, Structural)]
pub struct TimeCredit {
    pub start: u64,
    pub end: u64,
}

/// Why the time credit storage could not be read or written.
#[derive(PartialEq, Eq, Debug, Clone, Copy, Structural)]
pub enum StorageError {
    WriteError,
}

/// What the storage holds: either a credit running out at `time`, or none.
#[derive(PartialEq, Eq, Debug, Clone, Copy, Structural)]
pub enum GrantedTimeCredit {
    Until { time: u64 },
    Denied,
}

impl GrantedTimeCredit {
    /// The credit still runs at instant `now`: it ends strictly after `now`.
    pub open spec fn is_live_at(self, now: u64) -> bool {
        match self {
            GrantedTimeCredit::Until { time } => now < time,
            GrantedTimeCredit::Denied => false,
        }
    }
}

} // verus!
