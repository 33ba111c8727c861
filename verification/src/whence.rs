//! Seek origins: the whence selector and the base position each origin
//! refers to.

use vstd::prelude::*;
use crate::errors::{FsError, ValidationFault};

verus! {

/// Seek origin: 0 = start, 1 = current position, 2 = end.
#[derive(Clone, Copy, PartialEq, Eq, Structural, Debug)]
pub enum Whence {
    Start,
    Current,
    End,
}

/// The total mapping from a whence value to its origin; `None` outside
/// the legal set {0, 1, 2}.
pub open spec fn whence_of(w: i32) -> Option<Whence> {
    if w == 0 {
        Some(Whence::Start)
    } else if w == 1 {
        Some(Whence::Current)
    } else if w == 2 {
        Some(Whence::End)
    } else {
        None
    }
}

/// Parse a whence value. Any value outside {0, 1, 2} fails validation
/// with a fault carrying the offending value; `legal_whence_values`
/// enumerates the legal set the fault refers to.
pub fn parse_whence(w: i32) -> (r: Result<Whence, FsError>)
    ensures
        (match whence_of(w) {
            Some(x) => r == Ok::<Whence, FsError>(x),
            None => (r matches Err(e) && e matches FsError::Validation(
                ValidationFault::UnsupportedWhence(v),
            ) && v == w),
        }),
{
    if w == 0 {
        Ok(Whence::Start)
    } else if w == 1 {
        Ok(Whence::Current)
    } else if w == 2 {
        Ok(Whence::End)
    } else {
        Err(FsError::Validation(ValidationFault::UnsupportedWhence(w)))
    }
}

/// The legal whence values, in order: the set an `UnsupportedWhence`
/// fault names.
pub fn legal_whence_values() -> (r: Vec<i32>)
    ensures
        r@ == seq![0i32, 1i32, 2i32],
{
    let mut v: Vec<i32> = Vec::new();
    v.push(0);
    v.push(1);
    v.push(2);
    proof {
        assert(v@ =~= seq![0i32, 1i32, 2i32]);
    }
    v
}

/// The absolute position a seek origin refers to, for a file of length
/// `len` with cursor `pos`.
pub open spec fn seek_base(w: Whence, pos: int, len: int) -> int {
    match w {
        Whence::Start => 0,
        Whence::Current => pos,
        Whence::End => len,
    }
}

} // verus!
