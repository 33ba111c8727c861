//! The file-state machine: one open file's content, cursor, mode and
//! lifecycle, with the exact meaning of every handle operation.
//!
//! Operations on one `FileState` are fully serialized: each takes the
//! state by exclusive reference, so two operations can never interleave
//! at the byte level. The async layer reproduces this discipline over an
//! OS descriptor with an exclusive lock per handle.

use vstd::prelude::*;
use vstd::slice::{slice_subrange, slice_to_vec};
use vstd::string::StrSliceExecFns;
use vstd::utf8::valid_utf8;
use crate::errors::{FsError, IoCause, ValidationFault};
use crate::mode::{OpenMode, mode_of_token, parse_mode};
use crate::paths::{path_ok, validate_path};
use crate::whence::{Whence, whence_of, parse_whence, seek_base};
use crate::text::{FileData, LinesData, data_of, lines_data_of, decode_data, decode_lines};

verus! {

/// One open file: immutable path and mode, current content and cursor,
/// and whether close has been called. The cursor may point past the end
/// of the content after a seek; a write there fills the gap with zero
/// bytes, and a read there yields nothing.
#[derive(Debug)]
pub struct FileState {
    pub path: String,
    pub mode: OpenMode,
    pub data: Vec<u8>,
    pub pos: u64,
    pub closed: bool,
}

/// `content` extended with zero bytes out to length `to`, as a write
/// beyond the end of the file does; unchanged if already that long.
pub open spec fn zero_pad(content: Seq<u8>, to: int) -> Seq<u8> {
    if to <= content.len() {
        content
    } else {
        content + Seq::new((to - content.len()) as nat, |i: int| 0u8)
    }
}

/// The content after writing `payload` at absolute position `at`:
/// bytes before `at` are kept (zero-filled if the file was shorter),
/// `payload` replaces the next `payload.len()` bytes, and any bytes
/// beyond that are kept.
pub open spec fn store_bytes(content: Seq<u8>, at: int, payload: Seq<u8>) -> Seq<u8>
    recommends
        0 <= at,
{
    let base = zero_pad(content, at);
    base.subrange(0, at) + payload + (if at + payload.len() <= base.len() {
        base.subrange(at + payload.len(), base.len() as int)
    } else {
        Seq::empty()
    })
}

/// Where a write lands: at the end of the file in append mode, at the
/// cursor otherwise.
pub open spec fn write_pos(append: bool, pos: int, len: int) -> int {
    if append {
        len
    } else {
        pos
    }
}

/// One past the last byte a read takes: everything to the end when
/// `size < 0`, at most `size` bytes otherwise; a cursor at or past the
/// end does not move.
pub open spec fn read_end(data: Seq<u8>, pos: int, size: int) -> int {
    if pos >= data.len() {
        pos
    } else if size < 0 {
        data.len() as int
    } else if pos + size <= data.len() {
        pos + size
    } else {
        data.len() as int
    }
}

/// The exact bytes a read returns.
pub open spec fn read_bytes(data: Seq<u8>, pos: int, size: int) -> Seq<u8> {
    if pos >= data.len() {
        Seq::empty()
    } else {
        data.subrange(pos, read_end(data, pos, size))
    }
}

/// The state close leaves behind: the same file with the closed flag
/// set.
pub open spec fn close_result(f: FileState) -> FileState {
    FileState { closed: true, ..f }
}

/// One past the last byte of the line starting at `pos`: at the first
/// newline (which is included), at the end of the content, or after
/// `cap` bytes when `cap > 0`, whichever comes first; `cap <= 0` means
/// no cap. A cursor at or past the end does not move.
pub open spec fn line_end(data: Seq<u8>, pos: int, cap: int) -> int
    recommends
        0 <= pos,
    decreases data.len() - pos,
{
    if pos >= data.len() {
        pos
    } else if data[pos] == 10 {
        pos + 1
    } else if cap == 1 {
        pos + 1
    } else {
        line_end(data, pos + 1, cap - 1)
    }
}

/// The exact bytes a line read returns.
pub open spec fn line_bytes(data: Seq<u8>, pos: int, cap: int) -> Seq<u8> {
    if pos >= data.len() {
        Seq::empty()
    } else {
        data.subrange(pos, line_end(data, pos, cap))
    }
}

/// A line scan always takes at least one byte when anything remains,
/// and never runs past the end of the content.
pub proof fn lemma_line_end_bounds(data: Seq<u8>, pos: int, cap: int)
    requires
        0 <= pos,
    ensures
        pos >= data.len() ==> line_end(data, pos, cap) == pos,
        pos < data.len() ==> pos < line_end(data, pos, cap) <= data.len(),
    decreases data.len() - pos,
{
    if pos < data.len() && data[pos] != 10 && cap != 1 {
        lemma_line_end_bounds(data, pos + 1, cap - 1);
    }
}

/// What makes a line a line: a scan never passes a newline (no byte
/// before the last is one), an uncapped scan stops only just after a
/// newline or at the end of the content, and a capped scan takes at
/// most `cap` bytes.
pub proof fn lemma_line_end_shape(data: Seq<u8>, pos: int, cap: int)
    requires
        0 <= pos,
    ensures
        ({
            let e = line_end(data, pos, cap);
            (forall|k: int| pos <= k < e - 1 ==> data[k] != 10) && (pos < data.len() && cap <= 0
                ==> e == data.len() || data[e - 1] == 10) && (cap > 0 ==> e - pos <= cap)
        }),
    decreases data.len() - pos,
{
    if pos < data.len() && data[pos] != 10 && cap != 1 {
        lemma_line_end_shape(data, pos + 1, cap - 1);
        let e = line_end(data, pos, cap);
        assert(e == line_end(data, pos + 1, cap - 1));
        assert forall|k: int| pos <= k < e - 1 implies data[k] != 10 by {
            if k > pos {
                assert(pos + 1 <= k < e - 1);
            }
        }
    }
}

/// The lines a repeated uncapped line scan takes starting at `pos`,
/// each up to and including its newline, a final unterminated line
/// included if non-empty; stops as soon as the line count reaches
/// `hint` when `hint > 0` (`taken` counts lines already accumulated).
pub open spec fn lines_from(data: Seq<u8>, pos: int, hint: int, taken: int) -> Seq<Seq<u8>>
    recommends
        0 <= pos,
    decreases data.len() - pos,
        when 0 <= pos
        via lines_from_decreases
{
    if pos >= data.len() {
        Seq::empty()
    } else if hint > 0 && taken >= hint {
        Seq::empty()
    } else {
        let e = line_end(data, pos, 0);
        seq![data.subrange(pos, e)] + lines_from(data, e, hint, taken + 1)
    }
}

#[via_fn]
proof fn lines_from_decreases(data: Seq<u8>, pos: int, hint: int, taken: int) {
    if pos < data.len() && !(hint > 0 && taken >= hint) {
        lemma_line_end_bounds(data, pos, 0);
    }
}

/// Where the cursor stands after the scan that `lines_from` describes:
/// just past the last line taken.
pub open spec fn lines_end(data: Seq<u8>, pos: int, hint: int, taken: int) -> int
    recommends
        0 <= pos,
    decreases data.len() - pos,
        when 0 <= pos
        via lines_end_decreases
{
    if pos >= data.len() {
        pos
    } else if hint > 0 && taken >= hint {
        pos
    } else {
        lines_end(data, line_end(data, pos, 0), hint, taken + 1)
    }
}

#[via_fn]
proof fn lines_end_decreases(data: Seq<u8>, pos: int, hint: int, taken: int) {
    if pos < data.len() && !(hint > 0 && taken >= hint) {
        lemma_line_end_bounds(data, pos, 0);
    }
}

/// Find the end of the line starting at `start`: at the first newline,
/// the end of the content, or after `size` bytes when `size > 0`.
fn scan_line_end(data: &Vec<u8>, start: usize, size: i64) -> (e: usize)
    requires
        start <= data@.len(),
    ensures
        e == line_end(data@, start as int, size as int),
        start <= e <= data@.len(),
{
    proof {
        lemma_line_end_bounds(data@, start as int, size as int);
    }
    let len = data.len();
    let mut i = start;
    let mut stopped = false;
    while !stopped && i < len
        invariant
            start <= i <= len,
            len == data@.len(),
            !stopped && size > 0 ==> i - start < size,
            !stopped ==> line_end(data@, start as int, size as int) == line_end(
                data@,
                i as int,
                size - (i - start),
            ),
            stopped ==> line_end(data@, start as int, size as int) == i,
        decreases len - i,
    {
        let b = data[i];
        i = i + 1;
        if b == 10u8 {
            stopped = true;
        } else if size > 0 && ((i - start) as u64) >= (size as u64) {
            stopped = true;
        }
    }
    i
}

impl FileState {
    /// Open a file. The path is validated before anything else; then the
    /// mode token is parsed. `existing` is the file's current content,
    /// `None` when no file exists at the path: a mode that neither
    /// writes nor appends then fails with an I/O error naming the path,
    /// while a writing mode creates the file empty. A truncating mode
    /// (plain write, not append) discards any existing content. The
    /// cursor starts at zero.
    pub fn open(path: &str, token: &str, existing: Option<Vec<u8>>) -> (r: Result<
        FileState,
        FsError,
    >)
        ensures
            (match r {
                Ok(f) => path_ok(path@) && (mode_of_token(token@) matches Some(m) && f.mode == m
                    && (existing is Some || m.write || m.append) && f.path@ == path@ && f.pos == 0
                    && !f.closed && f.data@ == (if m.write && !m.append {
                    Seq::<u8>::empty()
                } else {
                    match existing {
                        Some(c) => c@,
                        None => Seq::<u8>::empty(),
                    }
                })),
                Err(e) => (match e {
                    FsError::Validation(v) => !(path_ok(path@) && mode_of_token(token@) is Some)
                        && (match v {
                        ValidationFault::EmptyPath => path@.len() == 0,
                        ValidationFault::NulInPath => path@.len() > 0 && !path_ok(path@),
                        ValidationFault::UnsupportedMode(t) => path_ok(path@) && t@ == token@
                            && mode_of_token(token@) is None,
                        _ => false,
                    }),
                    FsError::Io { path: p, cause } => path_ok(path@) && p@ == path@ && cause
                        == IoCause::NotFound && existing is None && (
                    mode_of_token(token@) matches Some(m) && !(m.write || m.append)),
                    _ => false,
                }),
            }),
    {
        if let Err(e) = validate_path(path) {
            return Err(e);
        }
        let m = match parse_mode(token) {
            Ok(m) => m,
            Err(e) => {
                return Err(e);
            },
        };
        match existing {
            None => {
                if !(m.write || m.append) {
                    return Err(
                        FsError::Io { path: path.to_owned(), cause: IoCause::NotFound },
                    );
                }
                Ok(
                    FileState {
                        path: path.to_owned(),
                        mode: m,
                        data: Vec::new(),
                        pos: 0,
                        closed: false,
                    },
                )
            },
            Some(c) => {
                let d: Vec<u8> = if m.write && !m.append {
                    Vec::new()
                } else {
                    c
                };
                Ok(
                    FileState { path: path.to_owned(), mode: m, data: d, pos: 0, closed: false },
                )
            },
        }
    }

    /// The current absolute cursor position; performs no positioning
    /// call and never fails.
    pub fn tell(&self) -> (r: u64)
        ensures
            r == self.pos,
    {
        self.pos
    }

    /// Mark the handle closed. Idempotent: calling it any number of
    /// times leaves the same state, and it changes nothing but the
    /// closed flag.
    pub fn close(&mut self)
        ensures
            *final(self) == close_result(*old(self)),
            final(self).closed,
            final(self).path@ == old(self).path@,
            final(self).mode == old(self).mode,
            final(self).data@ == old(self).data@,
            final(self).pos == old(self).pos,
    {
        self.closed = true;
    }

    /// Read from the cursor. `size < 0` reads every remaining byte;
    /// `size >= 0` reads the remaining bytes up to `size` (a bounded
    /// read may legitimately return fewer bytes than requested; here it
    /// returns everything available up to `size`). Binary mode returns
    /// raw bytes. Text mode requires the exact bytes read to decode as
    /// valid UTF-8 and fails with a decode error otherwise — a bounded
    /// read can split a multi-byte codepoint, which counts as a decode
    /// failure; the cursor has advanced either way, as the bytes were
    /// consumed. On a handle not opened for reading, fails with an I/O
    /// error naming the path and changes nothing.
    pub fn read(&mut self, size: i64) -> (r: Result<FileData, FsError>)
        ensures
            final(self).path@ == old(self).path@,
            final(self).mode == old(self).mode,
            final(self).closed == old(self).closed,
            final(self).data@ == old(self).data@,
            !old(self).mode.read ==> final(self).pos == old(self).pos && (r matches Err(e) && (
            e matches FsError::Io { path: p, cause } && p@ == old(self).path@ && cause
                == IoCause::NotReadable)),
            old(self).mode.read ==> ({
                let bytes = read_bytes(old(self).data@, old(self).pos as int, size as int);
                final(self).pos == read_end(old(self).data@, old(self).pos as int, size as int)
                    && (match r {
                    Ok(d) => (old(self).mode.binary || valid_utf8(bytes)) && data_of(
                        bytes,
                        old(self).mode.binary,
                        d,
                    ),
                    Err(e) => !old(self).mode.binary && !valid_utf8(bytes) && (
                    e matches FsError::Decode { path: p } && p@ == old(self).path@),
                })
            }),
    {
        if !self.mode.read {
            return Err(
                FsError::Io { path: self.path.clone(), cause: IoCause::NotReadable },
            );
        }
        let len = self.data.len();
        let bytes: Vec<u8> = if self.pos >= len as u64 {
            Vec::new()
        } else {
            let p = self.pos as usize;
            let end: usize = if size < 0 {
                len
            } else {
                let avail = len - p;
                if (size as u64) < (avail as u64) {
                    p + (size as usize)
                } else {
                    len
                }
            };
            self.pos = end as u64;
            slice_to_vec(slice_subrange(self.data.as_slice(), p, end))
        };
        decode_data(bytes, self.mode.binary, self.path.as_str())
    }

    /// Read one line from the cursor: bytes up to and including the
    /// first newline, stopping early (without a trailing newline) at
    /// the end of the file or after `size` bytes when `size > 0`.
    /// Decoding in text mode is as for `read`. On a handle not opened
    /// for reading, fails with an I/O error naming the path and changes
    /// nothing.
    pub fn readline(&mut self, size: i64) -> (r: Result<FileData, FsError>)
        ensures
            final(self).path@ == old(self).path@,
            final(self).mode == old(self).mode,
            final(self).closed == old(self).closed,
            final(self).data@ == old(self).data@,
            !old(self).mode.read ==> final(self).pos == old(self).pos && (r matches Err(e) && (
            e matches FsError::Io { path: p, cause } && p@ == old(self).path@ && cause
                == IoCause::NotReadable)),
            old(self).mode.read ==> ({
                let bytes = line_bytes(old(self).data@, old(self).pos as int, size as int);
                final(self).pos == line_end(old(self).data@, old(self).pos as int, size as int)
                    && (match r {
                    Ok(d) => (old(self).mode.binary || valid_utf8(bytes)) && data_of(
                        bytes,
                        old(self).mode.binary,
                        d,
                    ),
                    Err(e) => !old(self).mode.binary && !valid_utf8(bytes) && (
                    e matches FsError::Decode { path: p } && p@ == old(self).path@),
                })
            }),
    {
        if !self.mode.read {
            return Err(
                FsError::Io { path: self.path.clone(), cause: IoCause::NotReadable },
            );
        }
        let len = self.data.len();
        let bytes: Vec<u8> = if self.pos >= len as u64 {
            Vec::new()
        } else {
            let p = self.pos as usize;
            let e = scan_line_end(&self.data, p, size);
            self.pos = e as u64;
            slice_to_vec(slice_subrange(self.data.as_slice(), p, e))
        };
        decode_data(bytes, self.mode.binary, self.path.as_str())
    }

    /// Read lines from the cursor: each up to and including its
    /// newline, a final unterminated line before the end of the file
    /// included if non-empty; stops early as soon as `hint` lines have
    /// accumulated when `hint > 0`. Binary mode yields byte sequences;
    /// text mode yields strings, each line independently required to
    /// decode, a failure on any line failing the whole call. On a
    /// handle not opened for reading, fails with an I/O error naming
    /// the path and changes nothing.
    pub fn readlines(&mut self, hint: i64) -> (r: Result<LinesData, FsError>)
        ensures
            final(self).path@ == old(self).path@,
            final(self).mode == old(self).mode,
            final(self).closed == old(self).closed,
            final(self).data@ == old(self).data@,
            !old(self).mode.read ==> final(self).pos == old(self).pos && (r matches Err(e) && (
            e matches FsError::Io { path: p, cause } && p@ == old(self).path@ && cause
                == IoCause::NotReadable)),
            old(self).mode.read ==> ({
                let ls = lines_from(old(self).data@, old(self).pos as int, hint as int, 0);
                final(self).pos == lines_end(old(self).data@, old(self).pos as int, hint as int, 0)
                    && (match r {
                    Ok(d) => (old(self).mode.binary || (forall|i: int|
                        0 <= i < ls.len() ==> valid_utf8(#[trigger] ls[i]))) && lines_data_of(
                        ls,
                        old(self).mode.binary,
                        d,
                    ),
                    Err(e) => !old(self).mode.binary && !(forall|i: int|
                        0 <= i < ls.len() ==> valid_utf8(#[trigger] ls[i])) && (
                    e matches FsError::Decode { path: p } && p@ == old(self).path@),
                })
            }),
    {
        if !self.mode.read {
            return Err(
                FsError::Io { path: self.path.clone(), cause: IoCause::NotReadable },
            );
        }
        let len = self.data.len();
        let ghost gd = self.data@;
        let ghost start = self.pos as int;
        let mut lines: Vec<Vec<u8>> = Vec::new();
        proof {
            assert(lines.deep_view() =~~= Seq::<Seq<u8>>::empty());
            assert(Seq::<Seq<u8>>::empty() + lines_from(gd, start, hint as int, 0) =~= lines_from(
                gd,
                start,
                hint as int,
                0,
            ));
        }
        if self.pos < len as u64 {
            let mut p = self.pos as usize;
            while p < len && (hint <= 0 || (lines.len() as u64) < (hint as u64))
                invariant
                    0 <= start <= p <= len,
                    len == gd.len(),
                    self.data@ == gd,
                    lines_from(gd, start, hint as int, 0) == lines.deep_view() + lines_from(
                        gd,
                        p as int,
                        hint as int,
                        lines@.len() as int,
                    ),
                    lines_end(gd, start, hint as int, 0) == lines_end(
                        gd,
                        p as int,
                        hint as int,
                        lines@.len() as int,
                    ),
                decreases len - p,
            {
                let ghost dv0 = lines.deep_view();
                let ghost k = lines@.len() as int;
                let e = scan_line_end(&self.data, p, 0);
                let seg = slice_to_vec(slice_subrange(self.data.as_slice(), p, e));
                lines.push(seg);
                proof {
                    lemma_line_end_bounds(gd, p as int, 0);
                    assert(lines.deep_view() =~~= dv0 + seq![seg@]);
                    assert(lines_from(gd, p as int, hint as int, k) == seq![
                        gd.subrange(p as int, e as int),
                    ] + lines_from(gd, e as int, hint as int, k + 1));
                    assert(dv0 + lines_from(gd, p as int, hint as int, k) =~= (dv0 + seq![seg@])
                        + lines_from(gd, e as int, hint as int, k + 1));
                }
                p = e;
            }
            self.pos = p as u64;
            proof {
                assert(lines.deep_view() + lines_from(gd, p as int, hint as int, lines@.len() as int)
                    =~= lines.deep_view());
            }
        }
        decode_lines(lines, self.mode.binary, self.path.as_str())
    }

    /// Write the whole payload. In append mode the bytes land at the end
    /// of the file regardless of the cursor; otherwise they land at the
    /// cursor, zero-filling any gap past the old end. The cursor ends
    /// just after the written bytes. Returns the full byte count: never
    /// a silent partial write. On a handle not opened for writing,
    /// fails with an I/O error naming the path and changes nothing.
    pub fn write(&mut self, payload: &[u8]) -> (r: Result<u64, FsError>)
        requires
            old(self).mode.write ==> write_pos(
                old(self).mode.append,
                old(self).pos as int,
                old(self).data@.len() as int,
            ) + payload@.len() <= usize::MAX,
        ensures
            final(self).path@ == old(self).path@,
            final(self).mode == old(self).mode,
            final(self).closed == old(self).closed,
            !old(self).mode.write ==> final(self).data@ == old(self).data@ && final(self).pos
                == old(self).pos && (r matches Err(e) && (e matches FsError::Io {
                path: p,
                cause,
            } && p@ == old(self).path@ && cause == IoCause::NotWritable)),
            old(self).mode.write ==> ({
                let at = write_pos(
                    old(self).mode.append,
                    old(self).pos as int,
                    old(self).data@.len() as int,
                );
                final(self).data@ == store_bytes(old(self).data@, at, payload@) && final(self).pos
                    == at + payload@.len() && r == Ok::<u64, FsError>(payload@.len() as u64)
            }),
    {
        if !self.mode.write {
            return Err(
                FsError::Io { path: self.path.clone(), cause: IoCause::NotWritable },
            );
        }
        let ghost orig = self.data@;
        if self.mode.append {
            let ghost at = self.data@.len() as int;
            self.data.extend_from_slice(payload);
            self.pos = self.data.len() as u64;
            proof {
                assert(store_bytes(orig, at, payload@) =~= orig + payload@);
            }
            Ok(payload.len() as u64)
        } else {
            let at = self.pos as usize;
            let len = self.data.len();
            let keep = if at < len {
                at
            } else {
                len
            };
            let mut out: Vec<u8> = Vec::new();
            let mut i: usize = 0;
            while i < keep
                invariant
                    0 <= i <= keep,
                    keep <= orig.len(),
                    self.data@ == orig,
                    out@ == orig.subrange(0, i as int),
                decreases keep - i,
            {
                let b = self.data[i];
                out.push(b);
                proof {
                    assert(out@ =~= orig.subrange(0, i + 1));
                }
                i = i + 1;
            }
            while out.len() < at
                invariant
                    keep <= out@.len() <= at,
                    keep == (if at < orig.len() {
                        at as int
                    } else {
                        orig.len() as int
                    }),
                    out@ == zero_pad(orig, at as int).subrange(0, out@.len() as int),
                decreases at - out@.len(),
            {
                out.push(0u8);
                proof {
                    assert(out@ =~= zero_pad(orig, at as int).subrange(0, out@.len() as int));
                }
            }
            proof {
                assert(out@ =~= zero_pad(orig, at as int).subrange(0, at as int));
            }
            out.extend_from_slice(payload);
            let mut j: usize = at + payload.len();
            if j < len {
                proof {
                    assert(out@ =~= zero_pad(orig, at as int).subrange(0, at as int) + payload@
                        + orig.subrange(at + payload@.len(), j as int));
                }
                while j < len
                    invariant
                        len == orig.len(),
                        self.data@ == orig,
                        at + payload@.len() <= j <= orig.len(),
                        out@ == zero_pad(orig, at as int).subrange(0, at as int) + payload@
                            + orig.subrange(at + payload@.len(), j as int),
                    decreases orig.len() - j,
                {
                    let b = self.data[j];
                    out.push(b);
                    proof {
                        assert(out@ =~= zero_pad(orig, at as int).subrange(0, at as int) + payload@
                            + orig.subrange(at + payload@.len(), j + 1));
                    }
                    j = j + 1;
                }
            }
            proof {
                assert(out@ =~= store_bytes(orig, at as int, payload@));
            }
            self.data = out;
            self.pos = (at + payload.len()) as u64;
            Ok(payload.len() as u64)
        }
    }

    /// Write text: the string is encoded as UTF-8 and written like a
    /// byte payload.
    pub fn write_str(&mut self, s: &str) -> (r: Result<u64, FsError>)
        requires
            old(self).mode.write ==> write_pos(
                old(self).mode.append,
                old(self).pos as int,
                old(self).data@.len() as int,
            ) + vstd::utf8::encode_utf8(s@).len() <= usize::MAX,
        ensures
            final(self).path@ == old(self).path@,
            final(self).mode == old(self).mode,
            final(self).closed == old(self).closed,
            !old(self).mode.write ==> final(self).data@ == old(self).data@ && final(self).pos
                == old(self).pos && (r matches Err(e) && (e matches FsError::Io {
                path: p,
                cause,
            } && p@ == old(self).path@ && cause == IoCause::NotWritable)),
            old(self).mode.write ==> ({
                let payload = vstd::utf8::encode_utf8(s@);
                let at = write_pos(
                    old(self).mode.append,
                    old(self).pos as int,
                    old(self).data@.len() as int,
                );
                final(self).data@ == store_bytes(old(self).data@, at, payload) && final(self).pos
                    == at + payload.len() && r == Ok::<u64, FsError>(payload.len() as u64)
            }),
    {
        let bytes = s.as_bytes_vec();
        self.write(bytes.as_slice())
    }

    /// Move the cursor. An origin outside {0, 1, 2} fails validation
    /// before anything else and moves nothing. The new position is the
    /// origin's base plus `offset`; a negative result or one beyond
    /// `u64::MAX` fails with an I/O error naming the path, again moving
    /// nothing. On success returns the new absolute position.
    pub fn seek(&mut self, offset: i64, whence: i32) -> (r: Result<u64, FsError>)
        ensures
            final(self).path@ == old(self).path@,
            final(self).mode == old(self).mode,
            final(self).data@ == old(self).data@,
            final(self).closed == old(self).closed,
            (match whence_of(whence) {
                None => final(self).pos == old(self).pos && (r matches Err(e) && (
                e matches FsError::Validation(ValidationFault::UnsupportedWhence(v)) && v
                    == whence)),
                Some(w) => ({
                    let target = seek_base(w, old(self).pos as int, old(self).data@.len() as int)
                        + offset;
                    if target < 0 {
                        final(self).pos == old(self).pos && (r matches Err(e) && (
                        e matches FsError::Io { path: p, cause } && p@ == old(self).path@ && cause
                            == IoCause::NegativeSeek))
                    } else if target > u64::MAX {
                        final(self).pos == old(self).pos && (r matches Err(e) && (
                        e matches FsError::Io { path: p, cause } && p@ == old(self).path@ && cause
                            == IoCause::SeekOverflow))
                    } else {
                        final(self).pos == target && r == Ok::<u64, FsError>(target as u64)
                    }
                }),
            }),
    {
        let w = match parse_whence(whence) {
            Ok(w) => w,
            Err(e) => {
                return Err(e);
            },
        };
        let base: u64 = match w {
            Whence::Start => 0,
            Whence::Current => self.pos,
            Whence::End => self.data.len() as u64,
        };
        if offset >= 0 {
            let off = offset as u64;
            if base > u64::MAX - off {
                Err(
                    FsError::Io { path: self.path.clone(), cause: IoCause::SeekOverflow },
                )
            } else {
                self.pos = base + off;
                Ok(self.pos)
            }
        } else {
            let mag: u64 = if offset == i64::MIN {
                9223372036854775808u64
            } else {
                (-offset) as u64
            };
            if mag > base {
                Err(
                    FsError::Io { path: self.path.clone(), cause: IoCause::NegativeSeek },
                )
            } else {
                self.pos = base - mag;
                Ok(self.pos)
            }
        }
    }
}

} // verus!
