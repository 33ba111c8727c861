use rapfiles::errors::{ErrorCategory, FsError, ValidationFault};
use rapfiles::mode::{open_flags, parse_mode, supported_mode_tokens, OpenMode};

fn m(read: bool, write: bool, append: bool, binary: bool) -> OpenMode {
    OpenMode { read, write, append, binary }
}

#[test]
fn parse_mode_text_tokens() {
    assert_eq!(parse_mode("r"), Ok(m(true, false, false, false)));
    assert_eq!(parse_mode("r+"), Ok(m(true, true, false, false)));
    assert_eq!(parse_mode("w"), Ok(m(false, true, false, false)));
    assert_eq!(parse_mode("w+"), Ok(m(true, true, false, false)));
    assert_eq!(parse_mode("a"), Ok(m(false, true, true, false)));
    assert_eq!(parse_mode("a+"), Ok(m(true, true, true, false)));
}

#[test]
fn parse_mode_binary_tokens_share_triples() {
    assert_eq!(parse_mode("rb"), Ok(m(true, false, false, true)));
    assert_eq!(parse_mode("rb+"), Ok(m(true, true, false, true)));
    assert_eq!(parse_mode("wb"), Ok(m(false, true, false, true)));
    assert_eq!(parse_mode("wb+"), Ok(m(true, true, false, true)));
    assert_eq!(parse_mode("ab"), Ok(m(false, true, true, true)));
    assert_eq!(parse_mode("ab+"), Ok(m(true, true, true, true)));
}

#[test]
fn parse_mode_rejects_unknown_tokens() {
    for token in ["", "x", "rw", "b", "+", "r++", "br", "+b", "wb+b", "R", "a+b"] {
        let r = parse_mode(token);
        match r {
            Err(FsError::Validation(ValidationFault::UnsupportedMode(t))) => {
                assert_eq!(t, token);
            }
            other => panic!("token {token:?} gave {other:?}"),
        }
    }
}

#[test]
fn parse_mode_error_is_validation_category() {
    let e = parse_mode("z").unwrap_err();
    assert_eq!(e.category(), ErrorCategory::Validation);
}

#[test]
fn supported_mode_tokens_enumerate_the_legal_set() {
    let tokens = supported_mode_tokens();
    assert_eq!(
        tokens,
        vec!["r", "r+", "w", "w+", "a", "a+", "rb", "rb+", "wb", "wb+", "ab", "ab+"]
    );
    for t in tokens {
        assert!(parse_mode(t).is_ok());
    }
}

#[test]
fn open_flags_write_truncates_and_creates() {
    let f = open_flags(parse_mode("w").unwrap());
    assert!(f.write && f.create && f.truncate && !f.append && !f.read);
}

#[test]
fn open_flags_append_disables_truncate() {
    let f = open_flags(parse_mode("a").unwrap());
    assert!(f.write && f.create && !f.truncate && f.append && !f.read);
    let g = open_flags(parse_mode("ab+").unwrap());
    assert!(g.read && g.write && g.create && !g.truncate && g.append);
}

#[test]
fn open_flags_read_only_touches_nothing() {
    let f = open_flags(parse_mode("r").unwrap());
    assert!(f.read && !f.write && !f.create && !f.truncate && !f.append);
}
