//! The library's laws: properties relating several operations, proved
//! over the same specification functions the operations' contracts use.

use vstd::prelude::*;
use vstd::utf8::{
    valid_utf8,
    decode_utf8,
    encode_utf8,
    encode_utf8_valid_utf8,
    encode_utf8_decode_utf8,
};
use crate::file::{
    FileState,
    close_result,
    lemma_line_end_bounds,
    line_end,
    lines_end,
    lines_from,
    read_bytes,
    store_bytes,
    write_pos,
};
use crate::mode::{mode_of_token, supported_tokens};
use crate::whence::{Whence, seek_base, whence_of};

verus! {

/// Every documented mode token is accepted by the mode parser, and no
/// other token is: the supported set is exactly the set the parser
/// recognizes.
pub proof fn lemma_token_set_exact(t: Seq<char>)
    ensures
        mode_of_token(t) is Some <==> supported_tokens().contains(t),
{
    if supported_tokens().contains(t) {
        let i = choose|i: int| 0 <= i < supported_tokens().len() && supported_tokens()[i] == t;
        assert(mode_of_token(t) is Some);
    }
    if mode_of_token(t) is Some {
        if t.len() == 1 {
            if t[0] == 'r' {
                assert(t =~= supported_tokens()[0]);
            } else if t[0] == 'w' {
                assert(t =~= supported_tokens()[2]);
            } else {
                assert(t =~= supported_tokens()[4]);
            }
        } else if t.len() == 2 {
            if t[1] == '+' {
                if t[0] == 'r' {
                    assert(t =~= supported_tokens()[1]);
                } else if t[0] == 'w' {
                    assert(t =~= supported_tokens()[3]);
                } else {
                    assert(t =~= supported_tokens()[5]);
                }
            } else {
                if t[0] == 'r' {
                    assert(t =~= supported_tokens()[6]);
                } else if t[0] == 'w' {
                    assert(t =~= supported_tokens()[8]);
                } else {
                    assert(t =~= supported_tokens()[10]);
                }
            }
        } else {
            if t[0] == 'r' {
                assert(t =~= supported_tokens()[7]);
            } else if t[0] == 'w' {
                assert(t =~= supported_tokens()[9]);
            } else {
                assert(t =~= supported_tokens()[11]);
            }
        }
        assert(supported_tokens().contains(t));
    }
}

/// An unsupported mode token is rejected by parsing alone, before any
/// filesystem effect: it yields no open intent at all.
pub proof fn lemma_unsupported_mode_rejected(t: Seq<char>)
    requires
        !supported_tokens().contains(t),
    ensures
        mode_of_token(t) is None,
{
    lemma_token_set_exact(t);
}

/// Close is idempotent: closing a handle a second time (or any number
/// of times) leaves exactly the state the first close left.
pub proof fn lemma_close_idempotent(f: FileState)
    ensures
        close_result(close_result(f)) == close_result(f),
{
}

/// Round trip: writing a payload into an empty file and reading
/// everything back from the start yields exactly the payload — for a
/// cursor write at position zero and for an append write alike, since
/// both land at the start of an empty file.
pub proof fn lemma_write_read_round_trip(payload: Seq<u8>, append: bool)
    ensures
        ({
            let at = write_pos(append, 0, Seq::<u8>::empty().len() as int);
            let content = store_bytes(Seq::<u8>::empty(), at, payload);
            read_bytes(content, 0, -1) == payload
        }),
{
    let content = store_bytes(Seq::<u8>::empty(), 0, payload);
    assert(content =~= payload);
    if payload.len() > 0 {
        assert(read_bytes(content, 0, -1) =~= payload);
    } else {
        assert(read_bytes(content, 0, -1) =~= payload);
    }
}

/// Text round trip: writing a string and reading the file back in text
/// mode yields the same string, because UTF-8 encoding and decoding
/// invert each other on the exact bytes written.
pub proof fn lemma_write_read_round_trip_text(s: Seq<char>, append: bool)
    ensures
        ({
            let at = write_pos(append, 0, Seq::<u8>::empty().len() as int);
            let content = store_bytes(Seq::<u8>::empty(), at, encode_utf8(s));
            valid_utf8(read_bytes(content, 0, -1)) && decode_utf8(read_bytes(content, 0, -1)) == s
        }),
{
    lemma_write_read_round_trip(encode_utf8(s), append);
    encode_utf8_valid_utf8(s);
    encode_utf8_decode_utf8(s);
}

/// Reading lines repeatedly until end of file reconstructs the content
/// from the cursor onward byte-for-byte, a final unterminated line
/// included; `taken` is the count of lines already consumed and does
/// not affect an uncapped scan.
pub proof fn lemma_lines_reconstruct(data: Seq<u8>, pos: int, taken: int)
    requires
        0 <= pos <= data.len(),
    ensures
        lines_from(data, pos, 0, taken).flatten() == data.subrange(pos, data.len() as int),
    decreases data.len() - pos,
{
    if pos == data.len() {
        assert(lines_from(data, pos, 0, taken) == Seq::<Seq<u8>>::empty());
        assert(Seq::<Seq<u8>>::empty().flatten() =~= data.subrange(pos, data.len() as int));
    } else {
        let e = line_end(data, pos, 0);
        lemma_line_end_bounds(data, pos, 0);
        lemma_lines_reconstruct(data, e, taken + 1);
        let first = data.subrange(pos, e);
        let rest = lines_from(data, e, 0, taken + 1);
        let whole = lines_from(data, pos, 0, taken);
        assert(whole == seq![first] + rest);
        assert(whole.first() == first);
        assert(whole.drop_first() =~= rest);
        assert(whole.flatten() == first + rest.flatten());
        assert(first + data.subrange(e, data.len() as int) =~= data.subrange(
            pos,
            data.len() as int,
        ));
    }
}

/// A line scan consumes exactly the bytes it returns: after any
/// readlines (capped by a hint or not), the cursor has moved by
/// precisely the total length of the lines handed back.
pub proof fn lemma_lines_consume_what_they_return(data: Seq<u8>, pos: int, hint: int, taken: int)
    requires
        0 <= pos <= data.len(),
    ensures
        lines_end(data, pos, hint, taken) == pos + lines_from(
            data,
            pos,
            hint,
            taken,
        ).flatten().len(),
    decreases data.len() - pos,
{
    if pos >= data.len() || (hint > 0 && taken >= hint) {
        assert(lines_from(data, pos, hint, taken) == Seq::<Seq<u8>>::empty());
        assert(Seq::<Seq<u8>>::empty().flatten() =~= Seq::<u8>::empty());
    } else {
        let e = line_end(data, pos, 0);
        lemma_line_end_bounds(data, pos, 0);
        lemma_lines_consume_what_they_return(data, e, hint, taken + 1);
        let first = data.subrange(pos, e);
        let rest = lines_from(data, e, hint, taken + 1);
        let whole = lines_from(data, pos, hint, taken);
        assert(whole == seq![first] + rest);
        assert(whole.first() == first);
        assert(whole.drop_first() =~= rest);
        assert(whole.flatten() == first + rest.flatten());
    }
}

/// Seek to the end with zero offset (whence 2) resolves to the file
/// length, and to the start with zero offset (whence 0) to position
/// zero; both targets are in range for any actual file, so the seek
/// contract promises success and lands the cursor there, and tell —
/// which reports the cursor without moving it — then reports exactly
/// that value.
pub proof fn lemma_seek_tell(pos: int, len: int)
    requires
        0 <= len <= u64::MAX,
    ensures
        whence_of(2) == Some(Whence::End),
        seek_base(Whence::End, pos, len) + 0 == len,
        0 <= seek_base(Whence::End, pos, len) + 0 <= u64::MAX,
        whence_of(0) == Some(Whence::Start),
        seek_base(Whence::Start, pos, len) + 0 == 0,
{
}

/// Two sequential append-mode writes land whole and in order, whatever
/// the cursors say: the first payload sits directly after the prior
/// content and the second directly after the first.
pub proof fn lemma_append_order(
    content: Seq<u8>,
    first: Seq<u8>,
    second: Seq<u8>,
    pos1: int,
    pos2: int,
)
    ensures
        ({
            let once = store_bytes(content, write_pos(true, pos1, content.len() as int), first);
            let twice = store_bytes(once, write_pos(true, pos2, once.len() as int), second);
            twice == content + first + second
        }),
{
    let once = store_bytes(content, content.len() as int, first);
    assert(once =~= content + first);
    let twice = store_bytes(once, once.len() as int, second);
    assert(twice =~= content + first + second);
}

} // verus!
