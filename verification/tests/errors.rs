use std::io;
use webway_parser::errors::ParseError;
use webway_parser::text::{decode_text, text_or_invalid};

#[test]
fn parse_error_renders_each_kind() {
    assert_eq!(ParseError::InsufficientData.to_string(), "Insufficient data for parsing");
    assert_eq!(ParseError::IoError("disk gone".to_string()).to_string(), "IO error: disk gone");
    assert_eq!(
        ParseError::InvalidData("non-ASCII character".to_string()).to_string(),
        "Invalid data: non-ASCII character"
    );
    assert_eq!(ParseError::IoError(String::new()).to_string(), "IO error: ");
}

#[test]
fn parse_error_from_io_error_carries_the_cause() {
    let cause = io::Error::new(io::ErrorKind::UnexpectedEof, "failed to fill whole buffer");
    assert_eq!(
        ParseError::from(cause),
        ParseError::IoError("failed to fill whole buffer".to_string())
    );
    let other = io::Error::new(io::ErrorKind::Other, "pipe closed");
    let converted: ParseError = other.into();
    assert_eq!(converted, ParseError::IoError("pipe closed".to_string()));
}

#[test]
fn parse_error_kinds_differ() {
    assert_ne!(ParseError::InsufficientData, ParseError::IoError(String::new()));
    assert_ne!(ParseError::IoError("x".to_string()), ParseError::InvalidData("x".to_string()));
    let error = ParseError::InvalidData("x".to_string());
    assert_eq!(error.clone(), error);
}

#[test]
fn text_or_invalid_passes_text_and_wraps_a_fault() {
    assert_eq!(text_or_invalid(Ok("abc".to_string()), "ctx: "), Ok("abc".to_string()));
    assert_eq!(
        text_or_invalid(Err("bad byte".to_string()), "ctx: "),
        Err(ParseError::InvalidData("ctx: bad byte".to_string()))
    );
    assert_eq!(
        text_or_invalid(Err(String::new()), ""),
        Err(ParseError::InvalidData(String::new()))
    );
}

#[test]
fn decode_text_checks_utf8() {
    assert_eq!(decode_text(b"plain".to_vec(), "ctx: "), Ok("plain".to_string()));
    assert_eq!(decode_text(vec![], "ctx: "), Ok(String::new()));
    assert_eq!(decode_text("日本語".as_bytes().to_vec(), "ctx: "), Ok("日本語".to_string()));
    assert_eq!(
        decode_text(vec![0xC0, 0x80], "ctx: "),
        Err(ParseError::InvalidData(
            "ctx: invalid utf-8 sequence of 1 bytes from index 0".to_string()
        ))
    );
    assert_eq!(
        decode_text(vec![0xED, 0xA0, 0x80], "ctx: "),
        Err(ParseError::InvalidData(
            "ctx: invalid utf-8 sequence of 1 bytes from index 0".to_string()
        ))
    );
}
