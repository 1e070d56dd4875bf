use lp_json::failure::{serde_json_error_into_io_error, translate, Category, CodecError, Kind};
use std::io::{Error, ErrorKind, Read};

struct TimingOut;

impl Read for TimingOut {
    fn read(&mut self, _buf: &mut [u8]) -> std::io::Result<usize> {
        Err(Error::new(ErrorKind::TimedOut, "timed out"))
    }
}

#[test]
fn stream_failure_keeps_its_kind() {
    let err = serde_json::from_reader::<TimingOut, u64>(TimingOut).unwrap_err();
    let e = serde_json_error_into_io_error(err);
    assert_eq!(e.kind, Kind::Transport(ErrorKind::TimedOut));
    assert_eq!(e.message, Some(String::from("timed out")));
}

#[test]
fn syntax_failure_is_other() {
    let err = serde_json::from_slice::<u64>(b"{").unwrap_err();
    let text = err.to_string();
    let e = serde_json_error_into_io_error(err);
    assert_eq!(e, CodecError { kind: Kind::Other, message: Some(text) });
    let err = serde_json::from_slice::<u64>(b"1 2").unwrap_err();
    let e = serde_json_error_into_io_error(err);
    assert_eq!(
        e,
        CodecError { kind: Kind::Other, message: Some(String::from("trailing characters at line 1 column 3")) }
    );
}

#[test]
fn data_failure_is_other() {
    let err = serde_json::from_slice::<u8>(b"300").unwrap_err();
    let e = serde_json_error_into_io_error(err);
    assert_eq!(e.kind, Kind::Other);
    assert_eq!(
        e.message,
        Some(String::from("invalid value: integer `300`, expected u8 at line 1 column 3"))
    );
}

#[test]
fn eof_failure_is_unexpected_eof() {
    let err = serde_json::from_slice::<Vec<u64>>(b"[1, 2").unwrap_err();
    let e = serde_json_error_into_io_error(err);
    assert_eq!(
        e,
        CodecError {
            kind: Kind::UnexpectedEof,
            message: Some(String::from("EOF while parsing a list at line 1 column 5")),
        }
    );
}

#[test]
fn translate_follows_the_category() {
    let text = || String::from("why");
    assert_eq!(
        translate(Category::Io, Some(ErrorKind::BrokenPipe), text()),
        CodecError { kind: Kind::Transport(ErrorKind::BrokenPipe), message: Some(text()) }
    );
    assert_eq!(
        translate(Category::Io, Some(ErrorKind::UnexpectedEof), text()).kind,
        Kind::Transport(ErrorKind::UnexpectedEof)
    );
    assert_eq!(
        translate(Category::Io, None, text()),
        CodecError { kind: Kind::Other, message: Some(text()) }
    );
    assert_eq!(
        translate(Category::Syntax, None, text()),
        CodecError { kind: Kind::Other, message: Some(text()) }
    );
    assert_eq!(
        translate(Category::Data, None, text()),
        CodecError { kind: Kind::Other, message: Some(text()) }
    );
    assert_eq!(
        translate(Category::Eof, None, text()),
        CodecError { kind: Kind::UnexpectedEof, message: Some(text()) }
    );
}

#[test]
fn translate_ignores_a_stream_kind_outside_stream_failures() {
    assert_eq!(translate(Category::Data, Some(ErrorKind::TimedOut), String::new()).kind, Kind::Other);
    assert_eq!(
        translate(Category::Eof, Some(ErrorKind::TimedOut), String::new()).kind,
        Kind::UnexpectedEof
    );
}

#[test]
fn unexpected_eof_has_no_message() {
    let e = CodecError::unexpected_eof();
    assert_eq!(e, CodecError { kind: Kind::UnexpectedEof, message: None });
    assert!(e.is_truncated_input());
    assert!(!e.is_malformed_payload());
}

#[test]
fn kinds_are_told_apart() {
    let other = CodecError { kind: Kind::Other, message: None };
    assert!(other.is_malformed_payload());
    assert!(!other.is_truncated_input());
    let transport = CodecError { kind: Kind::Transport(ErrorKind::UnexpectedEof), message: None };
    assert!(!transport.is_malformed_payload());
    assert!(!transport.is_truncated_input());
}
