use rapfiles::errors::FsError;
use rapfiles::file::FileState;
use rapfiles::paths::validate_path;
use rapfiles::text::{decode_data, decode_lines, FileData, LinesData};

#[test]
fn decode_data_binary_passes_bytes_through() {
    let r = decode_data(vec![1, 2, 3], true, "p").unwrap();
    assert_eq!(r, FileData::Bytes(vec![1, 2, 3]));
}

#[test]
fn decode_data_text_decodes_valid_utf8() {
    let r = decode_data("grüß".as_bytes().to_vec(), false, "p").unwrap();
    assert_eq!(r, FileData::Text("grüß".to_string()));
}

#[test]
fn decode_data_text_rejects_invalid_utf8() {
    match decode_data(vec![0xC3, 0x28], false, "p") {
        Err(FsError::Decode { path }) => assert_eq!(path, "p"),
        other => panic!("expected a decode error, got {other:?}"),
    }
}

#[test]
fn decode_lines_text_requires_every_line_valid() {
    let good = vec![b"ok\n".to_vec(), b"fine".to_vec()];
    match decode_lines(good, false, "p").unwrap() {
        LinesData::Text(ls) => assert_eq!(ls, vec!["ok\n".to_string(), "fine".to_string()]),
        other => panic!("expected text lines, got {other:?}"),
    }
    let mixed = vec![b"ok\n".to_vec(), vec![0xFF], b"fine".to_vec()];
    match decode_lines(mixed, false, "p") {
        Err(FsError::Decode { path }) => assert_eq!(path, "p"),
        other => panic!("expected a decode error, got {other:?}"),
    }
}

#[test]
fn decode_lines_binary_keeps_lines() {
    let lines = vec![vec![0xFF], b"x\n".to_vec()];
    match decode_lines(lines.clone(), true, "p").unwrap() {
        LinesData::Bytes(ls) => assert_eq!(ls, lines),
        other => panic!("expected byte lines, got {other:?}"),
    }
}

#[test]
fn written_text_is_utf8_encoded_byte_for_byte() {
    let mut h = FileState::open("a.txt", "w", None).unwrap();
    h.write_str("héllo ↔ wörld").unwrap();
    assert_eq!(h.data, "héllo ↔ wörld".as_bytes().to_vec());
}

#[test]
fn text_read_back_equals_what_was_encoded() {
    let mut h = FileState::open("a.txt", "w+", None).unwrap();
    h.write_str("snowman ☃").unwrap();
    h.seek(0, 0).unwrap();
    match h.read(-1).unwrap() {
        FileData::Text(s) => assert_eq!(s, "snowman ☃"),
        other => panic!("expected text, got {other:?}"),
    }
}

#[test]
fn validate_path_accepts_ordinary_paths() {
    assert!(validate_path("dir/file.txt").is_ok());
    assert!(validate_path("ünïcode/påth").is_ok());
}

#[test]
fn validate_path_rejects_empty_and_nul() {
    assert!(validate_path("").is_err());
    assert!(validate_path("a\0b").is_err());
    assert!(validate_path("\0").is_err());
}
