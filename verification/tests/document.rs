use ofx_parse::de::{decode_binary, decode_signon_response, decode_status, require_child};
use ofx_parse::element::{parse_element, Content, Element};
use ofx_parse::error::Error;
use ofx_parse::from_str;
use ofx_parse::header::{OfxCharset, OfxContentType, OfxEncoding, OfxSecurity};
use ofx_parse::ofx::Severity;

const HEADER: &str = "OFXHEADER:100\n\
DATA:OFXSGML\n\
VERSION:102\n\
SECURITY:TYPE1\n\
ENCODING:USASCII\n\
CHARSET:1252\n\
COMPRESSION:NONE\n\
OLDFILEUID:NONE\n\
NEWFILEUID:NONE\n\
\n";

fn doc(body: &str) -> String {
    format!("{}{}", HEADER, body)
}

fn element(text: &str) -> Element {
    parse_element(text, 0).unwrap().0
}

#[test]
fn empty_root_decodes_with_every_optional_field_absent() {
    let text = doc("<OFX>\n</OFX>\n");
    let d = from_str(&text).unwrap();
    assert_eq!(d.header.header_version, 100);
    assert_eq!(d.header.data, OfxContentType::OfxSgml);
    assert_eq!(d.header.version, 102);
    assert_eq!(d.header.security, OfxSecurity::Type1);
    assert_eq!(d.header.encoding, OfxEncoding::UsAscii);
    assert_eq!(d.header.charset, OfxCharset::WindowsLatin1);
    assert!(d.ofx.signonmsgsrsv1.is_none());
}

#[test]
fn signon_response_with_required_fields_decodes() {
    let text = doc(
        "<OFX>\n\
<SIGNONMSGSRSV1>\n\
<SONRS>\n\
<STATUS>\n\
<CODE>0\n\
<SEVERITY>INFO\n\
<MESSAGE>OK\n\
</STATUS>\n\
<DTSERVER>20220717164144[-8:PST]\n\
<LANGUAGE>ENG\n\
<INTU.BID>00015\n\
</SONRS>\n\
</SIGNONMSGSRSV1>\n\
</OFX>\n",
    );
    let d = from_str(&text).unwrap();
    let sonrs = d.ofx.signonmsgsrsv1.unwrap().sonrs.unwrap();
    assert_eq!(sonrs.status.code, 0);
    assert_eq!(sonrs.status.severity, Severity::Info);
    assert_eq!(sonrs.status.message.as_str(), "OK");
    let expected_dt =
        ofx_parse::datetime::OfxDateTime::from_parts(2022, 7, 17, 16, 41, 44, 0, -8).unwrap();
    assert_eq!(sonrs.dtserver, expected_dt);
    assert!(sonrs.userkey.is_none());
    assert!(sonrs.tskeyexpire.is_none());
    assert_eq!(sonrs.language.as_str(), "ENG");
    assert_eq!(sonrs.unknown.get("INTU.BID").unwrap().as_str(), "00015");
}

#[test]
fn signon_response_with_all_fields_decodes() {
    let text = doc(
        "<OFX>\n\
<SIGNONMSGSRSV1>\n\
<SONRS>\n\
<STATUS>\n\
<CODE>0\n\
<SEVERITY>INFO\n\
<MESSAGE>OK\n\
</STATUS>\n\
<DTSERVER>20220717164144[-8:PST]\n\
<USERKEY>ABCDEFG\n\
<TSKEYEXPIRE>20220801010203[-8]\n\
<LANGUAGE>ENG\n\
<INTU.BID>00015\n\
</SONRS>\n\
</SIGNONMSGSRSV1>\n\
</OFX>\n",
    );
    let d = from_str(&text).unwrap();
    let sonrs = d.ofx.signonmsgsrsv1.unwrap().sonrs.unwrap();
    assert_eq!(sonrs.userkey.as_ref().unwrap().as_str(), "ABCDEFG");
    let expected_exp =
        ofx_parse::datetime::OfxDateTime::from_parts(2022, 8, 1, 1, 2, 3, 0, -8).unwrap();
    assert_eq!(sonrs.tskeyexpire.unwrap(), expected_exp);
}

#[test]
fn catch_all_collects_unmatched_leaves() {
    let e = element(
        "<SONRS>\n\
<STATUS>\n\
<CODE>0\n\
<SEVERITY>INFO\n\
<MESSAGE>OK\n\
</STATUS>\n\
<DTSERVER>20220717164144\n\
<LANGUAGE>ENG\n\
<A>1\n\
<B>2\n\
</SONRS>",
    );
    let sonrs = decode_signon_response(&e).unwrap();
    assert_eq!(sonrs.unknown.get("A").unwrap().as_str(), "1");
    assert_eq!(sonrs.unknown.get("B").unwrap().as_str(), "2");
    assert!(sonrs.unknown.get("C").is_none());
}

#[test]
fn catch_all_rejects_an_unmatched_aggregate_child() {
    let e = element(
        "<SONRS>\n\
<STATUS>\n\
<CODE>0\n\
<SEVERITY>INFO\n\
<MESSAGE>OK\n\
</STATUS>\n\
<DTSERVER>20220717164144\n\
<LANGUAGE>ENG\n\
<EXTRA><NESTED>x</NESTED></EXTRA>\n\
</SONRS>",
    );
    assert!(matches!(decode_signon_response(&e), Err(Error::Deserialize(_))));
}

#[test]
fn satisfied_root_succeeds_and_an_extra_sibling_is_trailing_input() {
    let good = doc("<OFX>\n<SIGNONMSGSRSV1>\n</SIGNONMSGSRSV1>\n</OFX>\n");
    assert!(from_str(&good).is_ok());
    let bad = doc("<OFX>\n<SIGNONMSGSRSV1>\n</SIGNONMSGSRSV1>\n<EXTRA>x\n</OFX>\n");
    assert_eq!(from_str(&bad), Err(Error::TrailingInput));
}

#[test]
fn content_after_the_root_element_is_trailing_input() {
    let text = doc("<OFX>\n</OFX>\nleftover");
    assert_eq!(from_str(&text), Err(Error::TrailingInput));
}

#[test]
fn missing_required_field_is_a_deserialize_error() {
    let e = element("<STATUS><CODE>0<SEVERITY>INFO</STATUS>");
    assert!(matches!(decode_status(&e), Err(Error::Deserialize(_))));
}

#[test]
fn escape_in_enum_variant_is_rejected() {
    let e = element("<STATUS><CODE>0<SEVERITY>IN&lt;FO<MESSAGE>OK</STATUS>");
    assert_eq!(decode_status(&e), Err(Error::EscapesInEnumVariant));
}

#[test]
fn unknown_severity_is_a_deserialize_error() {
    let e = element("<STATUS><CODE>0<SEVERITY>LOUD<MESSAGE>OK</STATUS>");
    assert!(matches!(decode_status(&e), Err(Error::Deserialize(_))));
}

#[test]
fn escape_in_borrowed_string_is_rejected() {
    let e = element("<STATUS><CODE>0<SEVERITY>INFO<MESSAGE>a&amp;b</STATUS>");
    assert_eq!(decode_status(&e), Err(Error::InvalidBorrowedStr));
}

#[test]
fn non_numeric_code_is_a_parse_error() {
    let e = element("<STATUS><CODE>zero<SEVERITY>INFO<MESSAGE>OK</STATUS>");
    assert!(matches!(decode_status(&e), Err(Error::ParseError(_))));
}

#[test]
fn negative_code_decodes() {
    let e = element("<STATUS><CODE>-15<SEVERITY>ERROR<MESSAGE>NO</STATUS>");
    let st = decode_status(&e).unwrap();
    assert_eq!(st.code, -15);
    assert_eq!(st.severity, Severity::Error);
}

#[test]
fn owned_string_decodes_escapes() {
    let e = element("<A>a&amp;b &lt;c&gt;");
    let s = ofx_parse::de::decode_owned_text(&e).unwrap();
    assert_eq!(s.as_str(), "a&b <c>");
}

#[test]
fn owned_string_with_unknown_escape_fails_explicitly() {
    let e = element("<A>a&copy;b");
    assert!(matches!(ofx_parse::de::decode_owned_text(&e), Err(Error::ParseError(_))));
}

#[test]
fn borrowed_string_without_escapes_is_handed_back() {
    let e = element("<A>plain");
    assert_eq!(ofx_parse::de::decode_borrowed_text(&e).unwrap().as_str(), "plain");
}

#[test]
fn sequence_shorter_than_the_arity_is_invalid_tuple_length() {
    let e = element("<R><A>1</R>");
    let kids = match &e.content {
        Content::Aggregate(v) => v,
        Content::Leaf(_) => panic!("expected an aggregate"),
    };
    assert!(require_child(kids, 0).is_ok());
    assert_eq!(require_child(kids, 1).err().unwrap(), Error::InvalidTupleLength);
}

#[test]
fn binary_blobs_are_an_unsupported_data_type() {
    let e = element("<A>x");
    assert_eq!(decode_binary(&e), Err(Error::UnsupportedDataType));
}

#[test]
fn malformed_optional_field_is_an_error_not_absence() {
    let e = element(
        "<SONRS>\n\
<STATUS>\n\
<CODE>0\n\
<SEVERITY>INFO\n\
<MESSAGE>OK\n\
</STATUS>\n\
<DTSERVER>20220717164144\n\
<TSKEYEXPIRE>2022\n\
<LANGUAGE>ENG\n\
</SONRS>",
    );
    assert_eq!(decode_signon_response(&e), Err(Error::ParseIncomplete));
}

#[test]
fn document_with_malformed_header_fails() {
    let text = "OFXHEADER:100\nDATA:XML\nVERSION:102\n";
    assert!(matches!(from_str(text), Err(Error::ParseError(_))));
}

#[test]
fn document_without_root_is_incomplete() {
    assert_eq!(from_str(HEADER), Err(Error::ParseIncomplete));
}
