//! Error channel: every failing call surfaces exactly one of three
//! categories, distinguishable by callers rather than embedded in a
//! message string.

use vstd::prelude::*;

verus! {

/// A fault detected synchronously, before any filesystem access.
/// No filesystem side effect has occurred when one of these is returned.
#[derive(Debug, PartialEq, Eq)]
pub enum ValidationFault {
    /// The path was empty.
    EmptyPath,
    /// The path contained an embedded NUL byte.
    NulInPath,
    /// The mode token is not one of the supported tokens; carries the
    /// offending token.
    UnsupportedMode(String),
    /// The seek origin is not 0 (start), 1 (current) or 2 (end); carries
    /// the offending value.
    UnsupportedWhence(i32),
}

/// The underlying cause of an OS-level failure.
#[derive(Clone, Copy, PartialEq, Eq, Structural, Debug)]
pub enum IoCause {
    /// The file does not exist and the mode does not create it.
    NotFound,
    /// The handle was not opened for reading.
    NotReadable,
    /// The handle was not opened for writing.
    NotWritable,
    /// A seek resolved to a position before the start of the file.
    NegativeSeek,
    /// A seek resolved to a position beyond the largest representable
    /// offset.
    SeekOverflow,
}

/// One failing call, one of three categories.
#[derive(Debug, PartialEq, Eq)]
pub enum FsError {
    /// Bad path, mode or whence, detected before any I/O; no side effect
    /// has occurred.
    Validation(ValidationFault),
    /// An OS-level failure, wrapping the path and the underlying cause.
    Io { path: String, cause: IoCause },
    /// I/O succeeded but a text-mode read produced bytes that are not
    /// valid UTF-8; wraps the path.
    Decode { path: String },
}

/// The category of a failure, on its own: callers branch on this.
#[derive(Clone, Copy, PartialEq, Eq, Structural, Debug)]
pub enum ErrorCategory {
    Validation,
    Io,
    Decode,
}

pub open spec fn category_of(e: FsError) -> ErrorCategory {
    match e {
        FsError::Validation(_) => ErrorCategory::Validation,
        FsError::Io { .. } => ErrorCategory::Io,
        FsError::Decode { .. } => ErrorCategory::Decode,
    }
}

impl FsError {
    /// Which of the three categories this error belongs to.
    pub fn category(&self) -> (c: ErrorCategory)
        ensures
            c == category_of(*self),
    {
        match self {
            FsError::Validation(_) => ErrorCategory::Validation,
            FsError::Io { .. } => ErrorCategory::Io,
            FsError::Decode { .. } => ErrorCategory::Decode,
        }
    }
}

} // verus!
