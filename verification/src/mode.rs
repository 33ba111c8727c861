//! Mode tokens: the pure mapping from a token such as `"rb+"` to an
//! open-intent triple plus a binary/text flag, and from there to the OS
//! open flags.

use vstd::prelude::*;
use vstd::string::StrSliceExecFns;
use crate::errors::{FsError, ValidationFault};

verus! {

/// Open intent derived once, at open time, from a mode token.
/// Immutable for the handle's lifetime. The binary flag only toggles
/// decode-on-read/encode-on-write; it never changes the triple.
#[derive(Clone, Copy, PartialEq, Eq, Structural, Debug)]
pub struct OpenMode {
    pub read: bool,
    pub write: bool,
    pub append: bool,
    pub binary: bool,
}

/// OS open flags derived from an `OpenMode`: write or append imply
/// create-if-absent; plain write (not append) truncates on open; append
/// sets the append flag and disables truncate.
#[derive(Clone, Copy, PartialEq, Eq, Structural, Debug)]
pub struct OpenFlags {
    pub read: bool,
    pub write: bool,
    pub create: bool,
    pub truncate: bool,
    pub append: bool,
}

/// The total mapping from a mode token to its `OpenMode`, `None` on an
/// unsupported token. Single-sourced: parsing and the legal-set
/// enumeration both follow this definition.
pub open spec fn mode_of_token(t: Seq<char>) -> Option<OpenMode> {
    if t.len() < 1 || 3 < t.len() {
        None
    } else if !(t[0] == 'r' || t[0] == 'w' || t[0] == 'a') {
        None
    } else if t.len() == 2 && !(t[1] == 'b' || t[1] == '+') {
        None
    } else if t.len() == 3 && !(t[1] == 'b' && t[2] == '+') {
        None
    } else {
        let plus = (t.len() == 2 && t[1] == '+') || t.len() == 3;
        Some(
            OpenMode {
                read: t[0] == 'r' || plus,
                write: t[0] != 'r' || plus,
                append: t[0] == 'a',
                binary: t.len() >= 2 && t[1] == 'b',
            },
        )
    }
}

/// The twelve supported tokens: the six text tokens and their b-suffixed
/// binary counterparts.
pub open spec fn supported_tokens() -> Seq<Seq<char>> {
    seq![
        seq!['r'],
        seq!['r', '+'],
        seq!['w'],
        seq!['w', '+'],
        seq!['a'],
        seq!['a', '+'],
        seq!['r', 'b'],
        seq!['r', 'b', '+'],
        seq!['w', 'b'],
        seq!['w', 'b', '+'],
        seq!['a', 'b'],
        seq!['a', 'b', '+'],
    ]
}

/// Parse a mode token. Returns the open intent for a supported token and
/// a validation fault carrying the offending token otherwise; pure, no
/// I/O, no retries.
pub fn parse_mode(token: &str) -> (r: Result<OpenMode, FsError>)
    ensures
        (match mode_of_token(token@) {
            Some(m) => r == Ok::<OpenMode, FsError>(m),
            None => (r matches Err(e) && (e matches FsError::Validation(
                ValidationFault::UnsupportedMode(t),
            ) && t@ == token@)),
        }),
{
    let n = token.unicode_len();
    if n < 1 || 3 < n {
        return Err(FsError::Validation(ValidationFault::UnsupportedMode(token.to_owned())));
    }
    let c0 = token.get_char(0);
    if !(c0 == 'r' || c0 == 'w' || c0 == 'a') {
        return Err(FsError::Validation(ValidationFault::UnsupportedMode(token.to_owned())));
    }
    if n == 2 {
        let c1 = token.get_char(1);
        if !(c1 == 'b' || c1 == '+') {
            return Err(FsError::Validation(ValidationFault::UnsupportedMode(token.to_owned())));
        }
    }
    if n == 3 {
        let c1 = token.get_char(1);
        let c2 = token.get_char(2);
        if !(c1 == 'b' && c2 == '+') {
            return Err(FsError::Validation(ValidationFault::UnsupportedMode(token.to_owned())));
        }
    }
    let plus = (n == 2 && token.get_char(1) == '+') || n == 3;
    let binary = n >= 2 && token.get_char(1) == 'b';
    Ok(
        OpenMode {
            read: c0 == 'r' || plus,
            write: c0 != 'r' || plus,
            append: c0 == 'a',
            binary,
        },
    )
}

/// The supported mode tokens, in order: the legal set an
/// `UnsupportedMode` fault refers to.
pub fn supported_mode_tokens() -> (r: Vec<&'static str>)
    ensures
        r@.len() == supported_tokens().len(),
        forall|i: int| 0 <= i < r@.len() ==> (#[trigger] r@[i])@ == supported_tokens()[i],
{
    let mut v: Vec<&'static str> = Vec::new();
    v.push("r");
    v.push("r+");
    v.push("w");
    v.push("w+");
    v.push("a");
    v.push("a+");
    v.push("rb");
    v.push("rb+");
    v.push("wb");
    v.push("wb+");
    v.push("ab");
    v.push("ab+");
    proof {
        reveal_strlit("r");
        reveal_strlit("r+");
        reveal_strlit("w");
        reveal_strlit("w+");
        reveal_strlit("a");
        reveal_strlit("a+");
        reveal_strlit("rb");
        reveal_strlit("rb+");
        reveal_strlit("wb");
        reveal_strlit("wb+");
        reveal_strlit("ab");
        reveal_strlit("ab+");
        assert(v@[0]@ =~= supported_tokens()[0]);
        assert(v@[1]@ =~= supported_tokens()[1]);
        assert(v@[2]@ =~= supported_tokens()[2]);
        assert(v@[3]@ =~= supported_tokens()[3]);
        assert(v@[4]@ =~= supported_tokens()[4]);
        assert(v@[5]@ =~= supported_tokens()[5]);
        assert(v@[6]@ =~= supported_tokens()[6]);
        assert(v@[7]@ =~= supported_tokens()[7]);
        assert(v@[8]@ =~= supported_tokens()[8]);
        assert(v@[9]@ =~= supported_tokens()[9]);
        assert(v@[10]@ =~= supported_tokens()[10]);
        assert(v@[11]@ =~= supported_tokens()[11]);
    }
    v
}

/// The OS open flags a given open intent calls for.
pub open spec fn flags_of(m: OpenMode) -> OpenFlags {
    OpenFlags {
        read: m.read,
        write: m.write || m.append,
        create: m.write || m.append,
        truncate: m.write && !m.append,
        append: m.append,
    }
}

/// Derive the OS open flags from a parsed mode.
pub fn open_flags(m: OpenMode) -> (f: OpenFlags)
    ensures
        f == flags_of(m),
{
    OpenFlags {
        read: m.read,
        write: m.write || m.append,
        create: m.write || m.append,
        truncate: m.write && !m.append,
        append: m.append,
    }
}

} // verus!
