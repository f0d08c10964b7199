use ofx_parse::error::Error;
use ofx_parse::header::{
    parse_charset, parse_content_type, parse_encoding, parse_header, parse_security, OfxCharset,
    OfxContentType, OfxEncoding, OfxSecurity,
};

const HEADER: &str = "OFXHEADER:100\n\
DATA:OFXSGML\n\
VERSION:102\n\
SECURITY:TYPE1\n\
ENCODING:USASCII\n\
CHARSET:1252\n\
COMPRESSION:NONE\n\
OLDFILEUID:NONE\n\
NEWFILEUID:NONE\n\
\n";

#[test]
fn header_standard_block_parses() {
    let (h, body) = parse_header(HEADER).unwrap();
    assert_eq!(h.header_version, 100);
    assert_eq!(h.data, OfxContentType::OfxSgml);
    assert_eq!(h.version, 102);
    assert_eq!(h.security, OfxSecurity::Type1);
    assert_eq!(h.encoding, OfxEncoding::UsAscii);
    assert_eq!(h.charset, OfxCharset::WindowsLatin1);
    assert_eq!(h.compression.as_str(), "NONE");
    assert_eq!(h.old_file_uid.as_str(), "NONE");
    assert_eq!(h.new_file_uid.as_str(), "NONE");
    assert_eq!(body, HEADER.len());
}

#[test]
fn header_crlf_lines_parse() {
    let text = HEADER.replace('\n', "\r\n");
    let (h, _) = parse_header(&text).unwrap();
    assert_eq!(h.header_version, 100);
    assert_eq!(h.security, OfxSecurity::Type1);
}

#[test]
fn header_truncated_is_incomplete() {
    assert_eq!(
        parse_header("OFXHEADER:100\nDATA:OFXSGML\n"),
        Err(Error::ParseIncomplete)
    );
}

#[test]
fn header_missing_blank_line_is_incomplete() {
    let text = &HEADER[..HEADER.len() - 1];
    assert_eq!(parse_header(text), Err(Error::ParseIncomplete));
}

#[test]
fn header_reordered_keys_are_a_parse_error() {
    let text = HEADER.replace("OFXHEADER:100\nDATA:OFXSGML", "DATA:OFXSGML\nOFXHEADER:100");
    assert!(matches!(parse_header(&text), Err(Error::ParseError(_))));
}

#[test]
fn header_unknown_enumeration_token_is_rejected() {
    let text = HEADER.replace("SECURITY:TYPE1", "SECURITY:TYPE2");
    assert!(matches!(parse_header(&text), Err(Error::ParseError(_))));
}

#[test]
fn header_non_integer_version_is_rejected() {
    let text = HEADER.replace("VERSION:102", "VERSION:XYZ");
    assert!(matches!(parse_header(&text), Err(Error::ParseError(_))));
}

#[test]
fn header_line_without_colon_is_a_parse_error() {
    let text = HEADER.replace("VERSION:102", "VERSION 102");
    assert!(matches!(parse_header(&text), Err(Error::ParseError(_))));
}

#[test]
fn content_type_tokens_round_trip() {
    let v = OfxContentType::OfxSgml;
    assert_eq!(parse_content_type(v.token()), Some(v));
}

#[test]
fn security_tokens_round_trip() {
    for v in [OfxSecurity::SecurityNone, OfxSecurity::Type1] {
        assert_eq!(parse_security(v.token()), Some(v));
    }
}

#[test]
fn encoding_tokens_round_trip() {
    for v in [OfxEncoding::UsAscii, OfxEncoding::Unicode] {
        assert_eq!(parse_encoding(v.token()), Some(v));
    }
}

#[test]
fn charset_tokens_round_trip() {
    for v in [OfxCharset::Latin1, OfxCharset::WindowsLatin1, OfxCharset::CharsetNone] {
        assert_eq!(parse_charset(v.token()), Some(v));
    }
}

#[test]
fn unknown_tokens_decode_to_nothing() {
    assert_eq!(parse_content_type("XML"), None);
    assert_eq!(parse_security("TYPE3"), None);
    assert_eq!(parse_encoding("EBCDIC"), None);
    assert_eq!(parse_charset("UTF-32"), None);
}
