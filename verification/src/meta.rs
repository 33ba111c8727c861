//! Metadata snapshots: immutable values capturing one stat result at
//! one instant, with no link to any handle or path.

use vstd::prelude::*;

verus! {

/// A point on the POSIX timeline: whole seconds since the epoch plus a
/// sub-second nanosecond part, always below one billion. The layer that
/// reads the clock clamps times before the epoch to zero.
#[derive(Clone, Copy, PartialEq, Eq, Structural, Debug)]
pub struct Timestamp {
    pub secs: u64,
    pub nanos: u32,
}

impl Timestamp {
    /// A well-formed timestamp keeps its nanosecond part below one
    /// billion.
    pub open spec fn wf(self) -> bool {
        self.nanos < 1_000_000_000
    }

    pub fn new(secs: u64, nanos: u32) -> (r: Timestamp)
        requires
            nanos < 1_000_000_000,
        ensures
            r == (Timestamp { secs, nanos }),
            r.wf(),
    {
        Timestamp { secs, nanos }
    }
}

/// One stat call's result: size, kind flags and the three timestamps.
/// Immutable and value-semantic.
#[derive(Clone, Copy, PartialEq, Eq, Structural, Debug)]
pub struct FileMetadata {
    pub size: u64,
    pub is_file: bool,
    pub is_dir: bool,
    pub modified: Timestamp,
    pub accessed: Timestamp,
    pub created: Timestamp,
}

impl FileMetadata {
    /// Assemble a snapshot from already-resolved values.
    pub fn new(
        size: u64,
        is_file: bool,
        is_dir: bool,
        modified: Timestamp,
        accessed: Timestamp,
        created: Timestamp,
    ) -> (r: FileMetadata)
        ensures
            r == (FileMetadata { size, is_file, is_dir, modified, accessed, created }),
    {
        FileMetadata { size, is_file, is_dir, modified, accessed, created }
    }

    /// Assemble a snapshot from what one metadata call reported. When
    /// the platform reports no creation/birth time, the snapshot falls
    /// back to the modification time for that field — a normalization,
    /// not an error.
    pub fn from_stat(
        size: u64,
        is_file: bool,
        is_dir: bool,
        modified: Timestamp,
        accessed: Timestamp,
        created: Option<Timestamp>,
    ) -> (r: FileMetadata)
        ensures
            r.size == size,
            r.is_file == is_file,
            r.is_dir == is_dir,
            r.modified == modified,
            r.accessed == accessed,
            r.created == (match created {
                Some(c) => c,
                None => modified,
            }),
    {
        let resolved = match created {
            Some(c) => c,
            None => modified,
        };
        FileMetadata { size, is_file, is_dir, modified, accessed, created: resolved }
    }

    /// Size in bytes.
    pub fn size(&self) -> (r: u64)
        ensures
            r == self.size,
    {
        self.size
    }

    /// Whether the path is a regular file.
    pub fn is_file(&self) -> (r: bool)
        ensures
            r == self.is_file,
    {
        self.is_file
    }

    /// Whether the path is a directory.
    pub fn is_dir(&self) -> (r: bool)
        ensures
            r == self.is_dir,
    {
        self.is_dir
    }

    /// Last modification time.
    pub fn modified(&self) -> (r: Timestamp)
        ensures
            r == self.modified,
    {
        self.modified
    }

    /// Last access time.
    pub fn accessed(&self) -> (r: Timestamp)
        ensures
            r == self.accessed,
    {
        self.accessed
    }

    /// Creation (birth) time, or the modification time where the
    /// platform reports none.
    pub fn created(&self) -> (r: Timestamp)
        ensures
            r == self.created,
    {
        self.created
    }
}

} // verus!
