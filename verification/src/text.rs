//! Binary-vs-text decoding: what a read hands back in each mode, and the
//! UTF-8 decode decision for text-mode reads.

use vstd::prelude::*;
use vstd::utf8::{valid_utf8, decode_utf8, encode_utf8, decode_utf8_encode_utf8};
use crate::errors::FsError;

verus! {

/// What a single read or readline hands back: raw bytes in binary mode,
/// text in text mode.
#[derive(Debug, PartialEq, Eq)]
pub enum FileData {
    Bytes(Vec<u8>),
    Text(String),
}

/// What readlines hands back: one sequence per line, raw in binary mode,
/// text in text mode.
#[derive(Debug, PartialEq, Eq)]
pub enum LinesData {
    Bytes(Vec<Vec<u8>>),
    Text(Vec<String>),
}

/// Relation between the exact bytes a read produced and the value the
/// caller gets in the given mode. In text mode the value is the string
/// the bytes encode, byte-for-byte.
pub open spec fn data_of(bytes: Seq<u8>, binary: bool, d: FileData) -> bool {
    if binary {
        d matches FileData::Bytes(b) && b@ == bytes
    } else {
        d matches FileData::Text(s) && s@ == decode_utf8(bytes) && encode_utf8(s@) == bytes
    }
}

/// Relation between the lines a line-scan produced and the value the
/// caller gets in the given mode; in text mode every line independently
/// decodes.
pub open spec fn lines_data_of(lines: Seq<Seq<u8>>, binary: bool, d: LinesData) -> bool {
    if binary {
        d matches LinesData::Bytes(ls) && ls.deep_view() == lines
    } else {
        d matches LinesData::Text(ss) && ss@.len() == lines.len() && (forall|i: int|
            0 <= i < lines.len() ==> valid_utf8(lines[i]) && (#[trigger] ss@[i])@ == decode_utf8(
                lines[i],
            ) && encode_utf8(ss@[i]@) == lines[i])
    }
}

/// Relies on `String::from_utf8`: it succeeds exactly when the bytes are
/// valid UTF-8 and then returns the string those bytes encode.
#[verifier::external_body]
pub(crate) fn string_from_bytes(v: Vec<u8>) -> (r: Option<String>)
    ensures
        r is Some <==> valid_utf8(v@),
        (r matches Some(s) ==> s@ == decode_utf8(v@)),
{
    String::from_utf8(v).ok()
}

/// Turn the exact bytes a read produced into the value the caller gets:
/// the bytes themselves in binary mode; in text mode the bytes must
/// decode as valid UTF-8, else the call fails with a decode error naming
/// the path. A size-bounded read can split a multi-byte codepoint at the
/// boundary; that is a decode failure here, not something to be
/// transparently healed.
pub fn decode_data(bytes: Vec<u8>, binary: bool, path: &str) -> (r: Result<FileData, FsError>)
    ensures
        binary || valid_utf8(bytes@) ==> (r matches Ok(d) && data_of(bytes@, binary, d)),
        !binary && !valid_utf8(bytes@) ==> (r matches Err(e) && (e matches FsError::Decode {
            path: p,
        } && p@ == path@)),
{
    let ghost bv = bytes@;
    if binary {
        Ok(FileData::Bytes(bytes))
    } else {
        match string_from_bytes(bytes) {
            Some(s) => {
                proof {
                    decode_utf8_encode_utf8(bv);
                }
                Ok(FileData::Text(s))
            },
            None => Err(FsError::Decode { path: path.to_owned() }),
        }
    }
}

/// Turn the lines a line-scan produced into the value the caller gets;
/// in text mode a decode failure on any line fails the whole call.
pub fn decode_lines(lines: Vec<Vec<u8>>, binary: bool, path: &str) -> (r: Result<
    LinesData,
    FsError,
>)
    ensures
        (match r {
            Ok(d) => (binary || (forall|i: int|
                0 <= i < lines@.len() ==> valid_utf8(#[trigger] lines.deep_view()[i])))
                && lines_data_of(lines.deep_view(), binary, d),
            Err(e) => !binary && !(forall|i: int|
                0 <= i < lines@.len() ==> valid_utf8(#[trigger] lines.deep_view()[i])) && (
            e matches FsError::Decode { path: p } && p@ == path@),
        }),
{
    if binary {
        Ok(LinesData::Bytes(lines))
    } else {
        let mut out: Vec<String> = Vec::new();
        let mut i: usize = 0;
        while i < lines.len()
            invariant
                !binary,
                0 <= i <= lines@.len(),
                out@.len() == i,
                forall|j: int|
                    0 <= j < i ==> valid_utf8(#[trigger] lines.deep_view()[j]) && out@[j]@
                        == decode_utf8(lines.deep_view()[j]) && encode_utf8(out@[j]@)
                        == lines.deep_view()[j],
            decreases lines@.len() - i,
        {
            let line = lines[i].clone();
            assert(line@ == lines.deep_view()[i as int]);
            let ghost lv = line@;
            match string_from_bytes(line) {
                Some(s) => {
                    proof {
                        decode_utf8_encode_utf8(lv);
                    }
                    out.push(s);
                },
                None => {
                    return Err(FsError::Decode { path: path.to_owned() });
                },
            }
            i = i + 1;
        }
        Ok(LinesData::Text(out))
    }
}

} // verus!
