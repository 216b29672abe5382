use vstd::prelude::*;

use crate::adapters::time_credit_storage::{GrantedTimeCredit, StorageError};

verus! {

/// Keeps the granted credit in a JSON file at `path`, so that it survives a
/// reload or a restart of the app. A write goes to `path` + ".tmp" first and
/// is then renamed over `path`, so that a killed process never leaves a
/// truncated file behind.
pub struct FileTimeCreditStorage {
    path: String,
}

/// What reading the credit file gave.
#[derive(PartialEq, Eq, Clone, Copy, Debug, Structural)]
pub enum CreditFileRead {
    /// The file holds a credit from `start` to `end`.
    Parsed { start: u64, end: u64 },
    /// The file exists but does not hold a credit.
    Unparsable,
    /// There is no file: no credit was ever granted.
    Missing,
    /// The file could not be read.
    Unreadable,
}

/// What the storage answers for a read of the credit file: a stored credit
/// runs until its end, a missing file means no credit, and any other outcome
/// is a storage failure.
pub open spec fn granted_until_of_read(read: CreditFileRead) -> Result<GrantedTimeCredit, StorageError> {
    match read {
        CreditFileRead::Parsed { end, .. } => Ok(GrantedTimeCredit::Until { time: end }),
        CreditFileRead::Missing => Ok(GrantedTimeCredit::Denied),
        _ => Err(StorageError::WriteError),
    }
}

impl FileTimeCreditStorage {
    /// The path of the credit file.
    pub closed spec fn file_path(&self) -> Seq<char> {
        self.path@
    }

    pub fn new(path: String) -> (storage: Self)
        ensures
            storage.file_path() == path@,
    {
        FileTimeCreditStorage { path }
    }

    /// The path of the credit file.
    pub fn path(&self) -> (path: &String)
        ensures
            path@ == self.file_path(),
    {
        &self.path
    }

    /// The path written before the rename: the file's path followed by ".tmp".
    pub fn tmp_path(&self) -> (tmp: String)
        ensures
            tmp@ == self.file_path() + ".tmp"@,
    {
        let mut tmp = self.path.clone();
        tmp.append(".tmp");
        tmp
    }

    /// What the storage answers for a read of the credit file (see
    /// [`granted_until_of_read`]).
    pub fn granted_until_from(read: CreditFileRead) -> (granted: Result<GrantedTimeCredit, StorageError>)
        ensures
            granted == granted_until_of_read(read),
    {
        match read {
            CreditFileRead::Parsed { end, .. } => Ok(GrantedTimeCredit::Until { time: end }),
            CreditFileRead::Missing => Ok(GrantedTimeCredit::Denied),
            _ => Err(StorageError::WriteError),
        }
    }
}

} // verus!
