use rapfiles::errors::{ErrorCategory, FsError, IoCause, ValidationFault};
use rapfiles::file::FileState;
use rapfiles::meta::{FileMetadata, Timestamp};
use rapfiles::text::FileData;
use rapfiles::whence::legal_whence_values;

fn text(d: FileData) -> String {
    match d {
        FileData::Text(s) => s,
        other => panic!("expected text, got {other:?}"),
    }
}

fn bytes(d: FileData) -> Vec<u8> {
    match d {
        FileData::Bytes(b) => b,
        other => panic!("expected bytes, got {other:?}"),
    }
}

#[test]
fn write_then_reopen_and_read_text() {
    let mut h = FileState::open("a.txt", "w", None).unwrap();
    assert_eq!(h.write_str("hello").unwrap(), 5);
    h.close();
    let mut h2 = FileState::open("a.txt", "r", Some(h.data)).unwrap();
    assert_eq!(text(h2.read(-1).unwrap()), "hello");
}

#[test]
fn write_then_reopen_and_read_binary() {
    let mut h = FileState::open("a.txt", "wb", None).unwrap();
    assert_eq!(h.write(&[0x00, 0xFF]).unwrap(), 2);
    h.close();
    let mut h2 = FileState::open("a.txt", "rb", Some(h.data)).unwrap();
    assert_eq!(bytes(h2.read(-1).unwrap()), vec![0x00, 0xFF]);
}

#[test]
fn round_trip_same_handle_text() {
    let mut h = FileState::open("a.txt", "w+", None).unwrap();
    h.write_str("héllo wörld").unwrap();
    h.seek(0, 0).unwrap();
    assert_eq!(text(h.read(-1).unwrap()), "héllo wörld");
}

#[test]
fn round_trip_same_handle_binary() {
    let mut h = FileState::open("a.txt", "wb+", None).unwrap();
    let payload = vec![0u8, 1, 2, 253, 254, 255];
    h.write(&payload).unwrap();
    h.seek(0, 0).unwrap();
    assert_eq!(bytes(h.read(-1).unwrap()), payload);
}

#[test]
fn read_missing_file_is_io_error_naming_path() {
    let r = FileState::open("no-such-file.txt", "r", None);
    match r {
        Err(FsError::Io { path, cause }) => {
            assert_eq!(path, "no-such-file.txt");
            assert_eq!(cause, IoCause::NotFound);
        }
        other => panic!("expected an I/O error, got {other:?}"),
    }
}

#[test]
fn missing_file_error_is_not_validation() {
    let e = FileState::open("no-such-file.txt", "r", None).unwrap_err();
    assert_eq!(e.category(), ErrorCategory::Io);
}

#[test]
fn seek_whence_outside_legal_set_fails_validation() {
    let mut h = FileState::open("a.txt", "w", None).unwrap();
    match h.seek(0, 5) {
        Err(FsError::Validation(ValidationFault::UnsupportedWhence(v))) => {
            assert_eq!(v, 5);
        }
        other => panic!("expected a validation error, got {other:?}"),
    }
    assert_eq!(legal_whence_values(), vec![0, 1, 2]);
    assert_eq!(h.tell(), 0);
}

#[test]
fn seek_end_and_start_agree_with_tell() {
    let mut h = FileState::open("a.txt", "r", Some(b"hello world".to_vec())).unwrap();
    assert_eq!(h.seek(0, 2).unwrap(), 11);
    assert_eq!(h.tell(), 11);
    assert_eq!(h.seek(0, 0).unwrap(), 0);
    assert_eq!(h.tell(), 0);
}

#[test]
fn seek_relative_and_negative() {
    let mut h = FileState::open("a.txt", "r", Some(b"abcdef".to_vec())).unwrap();
    assert_eq!(h.seek(2, 0).unwrap(), 2);
    assert_eq!(h.seek(1, 1).unwrap(), 3);
    assert_eq!(h.seek(-2, 1).unwrap(), 1);
    assert_eq!(h.seek(-1, 2).unwrap(), 5);
    match h.seek(-7, 1) {
        Err(FsError::Io { cause, .. }) => assert_eq!(cause, IoCause::NegativeSeek),
        other => panic!("expected an I/O error, got {other:?}"),
    }
    assert_eq!(h.tell(), 5);
}

#[test]
fn seek_overflow_is_io_error_and_moves_nothing() {
    let mut h = FileState::open("a.txt", "w", None).unwrap();
    assert_eq!(h.seek(i64::MAX, 0).unwrap(), i64::MAX as u64);
    assert_eq!(h.seek(i64::MAX, 1).unwrap(), u64::MAX - 1);
    match h.seek(3, 1) {
        Err(FsError::Io { cause, .. }) => assert_eq!(cause, IoCause::SeekOverflow),
        other => panic!("expected an I/O error, got {other:?}"),
    }
    assert_eq!(h.tell(), u64::MAX - 1);
}

#[test]
fn seek_by_smallest_offset_is_negative_from_low_positions() {
    let mut h = FileState::open("a.txt", "w", None).unwrap();
    h.seek(10, 0).unwrap();
    match h.seek(i64::MIN, 1) {
        Err(FsError::Io { cause, .. }) => assert_eq!(cause, IoCause::NegativeSeek),
        other => panic!("expected an I/O error, got {other:?}"),
    }
    assert_eq!(h.tell(), 10);
}

#[test]
fn two_sequential_append_writers_keep_order() {
    let mut w1 = FileState::open("log.txt", "a", Some(b"base|".to_vec())).unwrap();
    w1.write_str("first").unwrap();
    w1.close();
    let mut w2 = FileState::open("log.txt", "a", Some(w1.data)).unwrap();
    w2.write_str("second").unwrap();
    w2.close();
    assert_eq!(w2.data, b"base|firstsecond".to_vec());
}

#[test]
fn append_ignores_cursor_position() {
    let mut h = FileState::open("log.txt", "a+", Some(b"abc".to_vec())).unwrap();
    h.seek(0, 0).unwrap();
    h.write_str("xyz").unwrap();
    assert_eq!(h.data, b"abcxyz".to_vec());
    assert_eq!(h.tell(), 6);
}

#[test]
fn readline_to_eof_reconstructs_content() {
    let content = b"line one\nline two\n\nlast without newline".to_vec();
    let mut h = FileState::open("a.txt", "rb", Some(content.clone())).unwrap();
    let mut collected: Vec<u8> = Vec::new();
    loop {
        let line = bytes(h.readline(-1).unwrap());
        if line.is_empty() {
            break;
        }
        collected.extend_from_slice(&line);
    }
    assert_eq!(collected, content);
}

#[test]
fn readline_returns_terminator_and_final_line() {
    let mut h = FileState::open("a.txt", "r", Some(b"ab\ncd".to_vec())).unwrap();
    assert_eq!(text(h.readline(-1).unwrap()), "ab\n");
    assert_eq!(text(h.readline(-1).unwrap()), "cd");
    assert_eq!(text(h.readline(-1).unwrap()), "");
}

#[test]
fn readline_size_cap() {
    let mut h = FileState::open("a.txt", "r", Some(b"abcdef\n".to_vec())).unwrap();
    assert_eq!(text(h.readline(3).unwrap()), "abc");
    assert_eq!(text(h.readline(-1).unwrap()), "def\n");
}

#[test]
fn readline_cap_still_includes_newline_on_boundary() {
    let mut h = FileState::open("a.txt", "r", Some(b"ab\ncd".to_vec())).unwrap();
    assert_eq!(text(h.readline(3).unwrap()), "ab\n");
}

#[test]
fn readlines_splits_and_keeps_final_unterminated_line() {
    let mut h = FileState::open("a.txt", "r", Some(b"x\ny".to_vec())).unwrap();
    match h.readlines(-1).unwrap() {
        rapfiles::text::LinesData::Text(ls) => {
            assert_eq!(ls, vec!["x\n".to_string(), "y".to_string()]);
        }
        other => panic!("expected text lines, got {other:?}"),
    }
}

#[test]
fn readlines_hint_stops_early() {
    let mut h = FileState::open("a.txt", "r", Some(b"a\nb\nc\n".to_vec())).unwrap();
    match h.readlines(2).unwrap() {
        rapfiles::text::LinesData::Text(ls) => {
            assert_eq!(ls, vec!["a\n".to_string(), "b\n".to_string()]);
        }
        other => panic!("expected text lines, got {other:?}"),
    }
    assert_eq!(h.tell(), 4);
    assert_eq!(text(h.read(-1).unwrap()), "c\n");
}

#[test]
fn readlines_empty_file_yields_no_lines() {
    let mut h = FileState::open("a.txt", "rb", Some(Vec::new())).unwrap();
    match h.readlines(-1).unwrap() {
        rapfiles::text::LinesData::Bytes(ls) => assert!(ls.is_empty()),
        other => panic!("expected byte lines, got {other:?}"),
    }
}

#[test]
fn text_read_of_invalid_utf8_is_decode_error() {
    let mut h = FileState::open("a.txt", "r", Some(vec![0xFF, 0xFE])).unwrap();
    match h.read(-1) {
        Err(FsError::Decode { path }) => assert_eq!(path, "a.txt"),
        other => panic!("expected a decode error, got {other:?}"),
    }
}

#[test]
fn bounded_read_splitting_codepoint_is_decode_error() {
    // "é" encodes as two bytes; a one-byte read cuts it in half.
    let mut h = FileState::open("a.txt", "r", Some("é".as_bytes().to_vec())).unwrap();
    match h.read(1) {
        Err(FsError::Decode { path }) => assert_eq!(path, "a.txt"),
        other => panic!("expected a decode error, got {other:?}"),
    }
    // The bytes were consumed anyway: the cursor moved past the first byte.
    assert_eq!(h.tell(), 1);
}

#[test]
fn binary_read_never_decodes() {
    let mut h = FileState::open("a.txt", "rb", Some(vec![0xFF, 0xFE])).unwrap();
    assert_eq!(bytes(h.read(-1).unwrap()), vec![0xFF, 0xFE]);
}

#[test]
fn bounded_read_returns_available_bytes() {
    let mut h = FileState::open("a.txt", "rb", Some(b"abc".to_vec())).unwrap();
    assert_eq!(bytes(h.read(2).unwrap()), b"ab".to_vec());
    assert_eq!(bytes(h.read(100).unwrap()), b"c".to_vec());
    assert_eq!(bytes(h.read(100).unwrap()), Vec::<u8>::new());
}

#[test]
fn write_on_read_only_handle_fails_io() {
    let mut h = FileState::open("a.txt", "r", Some(b"keep".to_vec())).unwrap();
    match h.write(b"x") {
        Err(FsError::Io { path, cause }) => {
            assert_eq!(path, "a.txt");
            assert_eq!(cause, IoCause::NotWritable);
        }
        other => panic!("expected an I/O error, got {other:?}"),
    }
    assert_eq!(h.data, b"keep".to_vec());
}

#[test]
fn read_on_write_only_handle_fails_io() {
    let mut h = FileState::open("a.txt", "w", None).unwrap();
    match h.read(-1) {
        Err(FsError::Io { cause, .. }) => assert_eq!(cause, IoCause::NotReadable),
        other => panic!("expected an I/O error, got {other:?}"),
    }
}

#[test]
fn write_past_end_zero_fills_gap() {
    let mut h = FileState::open("a.txt", "wb", None).unwrap();
    h.seek(3, 0).unwrap();
    h.write(&[9]).unwrap();
    assert_eq!(h.data, vec![0, 0, 0, 9]);
}

#[test]
fn overwrite_in_middle_keeps_tail() {
    let mut h = FileState::open("a.txt", "rb+", Some(b"abcdef".to_vec())).unwrap();
    // The write-capable non-append modes truncate on open, so rebuild first.
    assert_eq!(h.data, Vec::<u8>::new());
    h.write(b"abcdef").unwrap();
    h.seek(1, 0).unwrap();
    h.write(b"XY").unwrap();
    assert_eq!(h.data, b"aXYdef".to_vec());
    assert_eq!(h.tell(), 3);
}

#[test]
fn plain_write_modes_truncate_existing_content() {
    let h = FileState::open("a.txt", "w", Some(b"old".to_vec())).unwrap();
    assert_eq!(h.data, Vec::<u8>::new());
    let g = FileState::open("a.txt", "a", Some(b"old".to_vec())).unwrap();
    assert_eq!(g.data, b"old".to_vec());
}

#[test]
fn every_supported_token_opens_and_closes() {
    for token in ["r", "r+", "w", "w+", "a", "a+", "rb", "rb+", "wb", "wb+", "ab", "ab+"] {
        let mut h = FileState::open("a.txt", token, Some(b"seed".to_vec())).unwrap();
        h.close();
        assert!(h.closed);
        h.close();
        h.close();
        assert!(h.closed);
    }
}

#[test]
fn unsupported_mode_creates_nothing() {
    match FileState::open("fresh.txt", "q", None) {
        Err(FsError::Validation(ValidationFault::UnsupportedMode(t))) => {
            assert_eq!(t, "q");
        }
        other => panic!("expected a validation error, got {other:?}"),
    }
    // The path is still absent: a read-only open of it reports not-found,
    // not leftover content.
    match FileState::open("fresh.txt", "r", None) {
        Err(FsError::Io { cause, .. }) => assert_eq!(cause, IoCause::NotFound),
        other => panic!("expected an I/O error, got {other:?}"),
    }
}

#[test]
fn empty_and_nul_paths_fail_validation_before_anything() {
    match FileState::open("", "w", None) {
        Err(FsError::Validation(ValidationFault::EmptyPath)) => {}
        other => panic!("expected a validation error, got {other:?}"),
    }
    match FileState::open("a\0b", "w", None) {
        Err(FsError::Validation(ValidationFault::NulInPath)) => {}
        other => panic!("expected a validation error, got {other:?}"),
    }
}

#[test]
fn metadata_of_fresh_empty_file() {
    let ts = Timestamp::new(1_700_000_000, 0);
    let meta = FileMetadata::from_stat(0, true, false, ts, ts, None);
    assert_eq!(meta.size(), 0);
    assert!(meta.is_file());
    assert!(!meta.is_dir());
    assert_eq!(meta.created(), ts);
}

#[test]
fn metadata_created_falls_back_to_modified() {
    let modified = Timestamp::new(100, 5);
    let accessed = Timestamp::new(200, 6);
    let meta = FileMetadata::from_stat(7, true, false, modified, accessed, None);
    assert_eq!(meta.created(), modified);
    let birth = Timestamp::new(50, 1);
    let meta2 = FileMetadata::from_stat(7, true, false, modified, accessed, Some(birth));
    assert_eq!(meta2.created(), birth);
    assert_eq!(FileMetadata::new(7, true, false, modified, accessed, birth), meta2);
}
