//! Path validation: performed before any filesystem access.

use vstd::prelude::*;
use vstd::string::StrSliceExecFns;
use crate::errors::{FsError, ValidationFault};

verus! {

/// A path is acceptable when it is non-empty and holds no embedded NUL.
pub open spec fn path_ok(p: Seq<char>) -> bool {
    p.len() > 0 && (forall|i: int| 0 <= i < p.len() ==> p[i] != '\0')
}

/// Validate a path before touching the filesystem: it must be non-empty
/// and must not contain a NUL byte. Pure; an error here guarantees that
/// no filesystem access has taken place.
pub fn validate_path(path: &str) -> (r: Result<(), FsError>)
    ensures
        r is Ok <==> path_ok(path@),
        path@.len() == 0 ==> (r matches Err(e) && e matches FsError::Validation(
            ValidationFault::EmptyPath,
        )),
        path@.len() > 0 && !path_ok(path@) ==> (r matches Err(e) && e matches FsError::Validation(
            ValidationFault::NulInPath,
        )),
{
    let n = path.unicode_len();
    if n == 0 {
        return Err(FsError::Validation(ValidationFault::EmptyPath));
    }
    let mut i: usize = 0;
    while i < n
        invariant
            0 <= i <= n,
            n == path@.len(),
            forall|j: int| 0 <= j < i ==> path@[j] != '\0',
        decreases n - i,
    {
        if path.get_char(i) == '\0' {
            return Err(FsError::Validation(ValidationFault::NulInPath));
        }
        i = i + 1;
    }
    Ok(())
}

} // verus!
