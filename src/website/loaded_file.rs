//! One cached asset and the decision whether it must be read again.

use vstd::prelude::*;

verus! {

/// A file's contents as read from disk, with the instant of the read
/// (nanoseconds since the Unix epoch).
pub struct LoadedFile {
    pub filepath: String,
    pub last_read: u64,
    pub contents: Vec<u8>,
}

/// What a cached file is, as a value.
pub struct FileSnapshot {
    pub path: Seq<char>,
    pub last_read: u64,
    pub contents: Seq<u8>,
}

impl View for LoadedFile {
    type V = FileSnapshot;

    open spec fn view(&self) -> FileSnapshot {
        FileSnapshot { path: self.filepath@, last_read: self.last_read, contents: self.contents@ }
    }
}

/// Why a cached file was not brought up to date.
#[derive(Debug, PartialEq, Eq, Clone, Copy, Structural)]
pub enum ReloadError {
    /// The file's modification time could not be read.
    MetadataUnavailable,
    /// The file's contents could not be read.
    ReadFailed,
}

/// The freshness check of a cached file.
#[derive(Debug, PartialEq, Eq, Clone, Copy, Structural)]
pub enum ReloadResult {
    /// The file has not been modified after it was read.
    NotNeeded,
    /// The file was modified after it was read: its contents must be read again.
    ReadNeeded,
    /// Freshness could not be checked; the cached copy stands.
    ErrorDidntReload(ReloadError),
}

/// The freshness check of a copy read at `last_read`, given the file's
/// modification time, where that could be read.
pub open spec fn reload_check(last_read: u64, modified: Option<u64>) -> ReloadResult {
    match modified {
        None => ReloadResult::ErrorDidntReload(ReloadError::MetadataUnavailable),
        Some(m) => if m <= last_read {
            ReloadResult::NotNeeded
        } else {
            ReloadResult::ReadNeeded
        },
    }
}

impl LoadedFile {
    /// The copy of `filepath` whose contents were read at `last_read`.
    pub fn from_read(filepath: String, contents: Vec<u8>, last_read: u64) -> (r: LoadedFile)
        ensures
            r@ == (FileSnapshot { path: filepath@, last_read, contents: contents@ }),
    {
        LoadedFile { filepath, last_read, contents }
    }

    /// Decides whether this copy must be read again, given the file's
    /// modification time as the disk reports it (`None` where it could not).
    pub fn try_reload(&self, modified: Option<u64>) -> (r: ReloadResult)
        ensures
            r == reload_check(self.last_read, modified),
    {
        match modified {
            None => ReloadResult::ErrorDidntReload(ReloadError::MetadataUnavailable),
            Some(m) => if m <= self.last_read {
                ReloadResult::NotNeeded
            } else {
                ReloadResult::ReadNeeded
            },
        }
    }
}

} // verus!
