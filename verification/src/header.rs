//! The fixed `KEY:VALUE` preamble that precedes the markup body.
//!
//! The header is a sequence of lines in the fixed, format-mandated order
//! `OFXHEADER`, `DATA`, `VERSION`, `SECURITY`, `ENCODING`, `CHARSET`,
//! `COMPRESSION`, `OLDFILEUID`, `NEWFILEUID`, terminated by one blank line
//! before the first markup tag.  Every value is validated against its
//! declared domain where it is read: an integer range or membership in a
//! closed enumeration.  Unknown enumeration tokens are rejected, never
//! coerced to a default.  A required line missing before the input ends is
//! parse-incomplete; a malformed line is a parse error naming the
//! offending key.  The parser never looks past the blank-line terminator.

use vstd::prelude::*;

use crate::error::{kind_of, parse_err, Error, ErrorKind};
use crate::text::{parse_u32_token, scan_to, scan_to_spec, spec_u32_token, str_eq};

verus! {

broadcast use vstd::string::group_string_axioms;

/// `DATA`: the content type of the body.
#[derive(Clone, Copy, Debug, PartialEq, Eq, Structural)]
pub enum OfxContentType {
    /// `OFXSGML`: an SGML-flavored version 1.x body.
    OfxSgml,
}

/// `SECURITY`: the application-level security of the message set.
#[derive(Clone, Copy, Debug, PartialEq, Eq, Structural)]
pub enum OfxSecurity {
    /// `NONE`
    SecurityNone,
    /// `TYPE1`
    Type1,
}

/// `ENCODING`: the text encoding of the body.
#[derive(Clone, Copy, Debug, PartialEq, Eq, Structural)]
pub enum OfxEncoding {
    /// `USASCII`
    UsAscii,
    /// `UNICODE`
    Unicode,
}

/// `CHARSET`: the character set of the body.
#[derive(Clone, Copy, Debug, PartialEq, Eq, Structural)]
pub enum OfxCharset {
    /// `ISO-8859-1`
    Latin1,
    /// `1252`
    WindowsLatin1,
    /// `NONE`
    CharsetNone,
}

/// The validated header record.  All required keys are present, read in
/// the fixed order the format mandates.
#[derive(Clone, Debug, PartialEq, Eq)]
pub struct OfxHeader {
    pub header_version: u32,
    pub data: OfxContentType,
    pub version: u32,
    pub security: OfxSecurity,
    pub encoding: OfxEncoding,
    pub charset: OfxCharset,
    pub compression: String,
    pub old_file_uid: String,
    pub new_file_uid: String,
}

/// The token that renders a content type.
pub open spec fn content_type_token(v: OfxContentType) -> Seq<char> {
    "OFXSGML"@
}

/// The content type a token denotes, if any.
pub open spec fn spec_content_type(t: Seq<char>) -> Option<OfxContentType> {
    if t == "OFXSGML"@ {
        Some(OfxContentType::OfxSgml)
    } else {
        None
    }
}

/// The token that renders a security mode.
pub open spec fn security_token(v: OfxSecurity) -> Seq<char> {
    match v {
        OfxSecurity::SecurityNone => "NONE"@,
        OfxSecurity::Type1 => "TYPE1"@,
    }
}

/// The security mode a token denotes, if any.
pub open spec fn spec_security(t: Seq<char>) -> Option<OfxSecurity> {
    if t == "NONE"@ {
        Some(OfxSecurity::SecurityNone)
    } else if t == "TYPE1"@ {
        Some(OfxSecurity::Type1)
    } else {
        None
    }
}

/// The token that renders an encoding.
pub open spec fn encoding_token(v: OfxEncoding) -> Seq<char> {
    match v {
        OfxEncoding::UsAscii => "USASCII"@,
        OfxEncoding::Unicode => "UNICODE"@,
    }
}

/// The encoding a token denotes, if any.
pub open spec fn spec_encoding(t: Seq<char>) -> Option<OfxEncoding> {
    if t == "USASCII"@ {
        Some(OfxEncoding::UsAscii)
    } else if t == "UNICODE"@ {
        Some(OfxEncoding::Unicode)
    } else {
        None
    }
}

/// The token that renders a character set.
pub open spec fn charset_token(v: OfxCharset) -> Seq<char> {
    match v {
        OfxCharset::Latin1 => "ISO-8859-1"@,
        OfxCharset::WindowsLatin1 => "1252"@,
        OfxCharset::CharsetNone => "NONE"@,
    }
}

/// The character set a token denotes, if any.
pub open spec fn spec_charset(t: Seq<char>) -> Option<OfxCharset> {
    if t == "ISO-8859-1"@ {
        Some(OfxCharset::Latin1)
    } else if t == "1252"@ {
        Some(OfxCharset::WindowsLatin1)
    } else if t == "NONE"@ {
        Some(OfxCharset::CharsetNone)
    } else {
        None
    }
}

impl OfxContentType {
    /// Renders the value as its header token.
    pub fn token(&self) -> (r: &'static str)
        ensures
            r@ == content_type_token(*self),
    {
        "OFXSGML"
    }
}

impl OfxSecurity {
    /// Renders the value as its header token.
    pub fn token(&self) -> (r: &'static str)
        ensures
            r@ == security_token(*self),
    {
        match self {
            OfxSecurity::SecurityNone => "NONE",
            OfxSecurity::Type1 => "TYPE1",
        }
    }
}

impl OfxEncoding {
    /// Renders the value as its header token.
    pub fn token(&self) -> (r: &'static str)
        ensures
            r@ == encoding_token(*self),
    {
        match self {
            OfxEncoding::UsAscii => "USASCII",
            OfxEncoding::Unicode => "UNICODE",
        }
    }
}

impl OfxCharset {
    /// Renders the value as its header token.
    pub fn token(&self) -> (r: &'static str)
        ensures
            r@ == charset_token(*self),
    {
        match self {
            OfxCharset::Latin1 => "ISO-8859-1",
            OfxCharset::WindowsLatin1 => "1252",
            OfxCharset::CharsetNone => "NONE",
        }
    }
}

/// Parses a content-type token.
pub fn parse_content_type(t: &str) -> (r: Option<OfxContentType>)
    ensures
        r == spec_content_type(t@),
{
    if str_eq(t, "OFXSGML") {
        Some(OfxContentType::OfxSgml)
    } else {
        None
    }
}

/// Parses a security token.
pub fn parse_security(t: &str) -> (r: Option<OfxSecurity>)
    ensures
        r == spec_security(t@),
{
    if str_eq(t, "NONE") {
        Some(OfxSecurity::SecurityNone)
    } else if str_eq(t, "TYPE1") {
        Some(OfxSecurity::Type1)
    } else {
        None
    }
}

/// Parses an encoding token.
pub fn parse_encoding(t: &str) -> (r: Option<OfxEncoding>)
    ensures
        r == spec_encoding(t@),
{
    if str_eq(t, "USASCII") {
        Some(OfxEncoding::UsAscii)
    } else if str_eq(t, "UNICODE") {
        Some(OfxEncoding::Unicode)
    } else {
        None
    }
}

/// Parses a character-set token.
pub fn parse_charset(t: &str) -> (r: Option<OfxCharset>)
    ensures
        r == spec_charset(t@),
{
    if str_eq(t, "ISO-8859-1") {
        Some(OfxCharset::Latin1)
    } else if str_eq(t, "1252") {
        Some(OfxCharset::WindowsLatin1)
    } else if str_eq(t, "NONE") {
        Some(OfxCharset::CharsetNone)
    } else {
        None
    }
}

/// Re-encoding a content type and decoding it again reproduces the value.
pub proof fn lemma_content_type_round_trip(v: OfxContentType)
    ensures
        spec_content_type(content_type_token(v)) == Some(v),
{
}

/// Re-encoding a security mode and decoding it again reproduces the value.
pub proof fn lemma_security_round_trip(v: OfxSecurity)
    ensures
        spec_security(security_token(v)) == Some(v),
{
    reveal_strlit("NONE");
    reveal_strlit("TYPE1");
    assert(("NONE")@.len() == 4);
    assert(("TYPE1")@.len() == 5);
}

/// Re-encoding an encoding and decoding it again reproduces the value.
pub proof fn lemma_encoding_round_trip(v: OfxEncoding)
    ensures
        spec_encoding(encoding_token(v)) == Some(v),
{
    reveal_strlit("USASCII");
    reveal_strlit("UNICODE");
    assert(("USASCII")@[1] == 'S');
    assert(("UNICODE")@[1] == 'N');
}

/// Re-encoding a character set and decoding it again reproduces the value.
pub proof fn lemma_charset_round_trip(v: OfxCharset)
    ensures
        spec_charset(charset_token(v)) == Some(v),
{
    reveal_strlit("ISO-8859-1");
    reveal_strlit("1252");
    reveal_strlit("NONE");
    assert(("ISO-8859-1")@.len() == 10);
    assert(("1252")@.len() == 4);
    assert(("NONE")@.len() == 4);
    assert(("1252")@[0] == '1');
    assert(("NONE")@[0] == 'N');
}

/// A token that decodes to a content type is that value's own rendering:
/// decoding a valid header field and re-encoding it reproduces the field
/// exactly.
pub proof fn lemma_content_type_render(t: Seq<char>)
    requires
        spec_content_type(t) is Some,
    ensures
        content_type_token(spec_content_type(t).unwrap()) == t,
{
}

/// A token that decodes to a security mode is that value's own rendering.
pub proof fn lemma_security_render(t: Seq<char>)
    requires
        spec_security(t) is Some,
    ensures
        security_token(spec_security(t).unwrap()) == t,
{
}

/// A token that decodes to an encoding is that value's own rendering.
pub proof fn lemma_encoding_render(t: Seq<char>)
    requires
        spec_encoding(t) is Some,
    ensures
        encoding_token(spec_encoding(t).unwrap()) == t,
{
}

/// A token that decodes to a character set is that value's own rendering.
pub proof fn lemma_charset_render(t: Seq<char>)
    requires
        spec_charset(t) is Some,
    ensures
        charset_token(spec_charset(t).unwrap()) == t,
{
}

/// The mathematical shape of a header record.
pub struct HeaderModel {
    pub header_version: int,
    pub data: OfxContentType,
    pub version: int,
    pub security: OfxSecurity,
    pub encoding: OfxEncoding,
    pub charset: OfxCharset,
    pub compression: Seq<char>,
    pub old_file_uid: Seq<char>,
    pub new_file_uid: Seq<char>,
}

/// The model of a header record.
pub open spec fn header_model(h: OfxHeader) -> HeaderModel {
    HeaderModel {
        header_version: h.header_version as int,
        data: h.data,
        version: h.version as int,
        security: h.security,
        encoding: h.encoding,
        charset: h.charset,
        compression: h.compression@,
        old_file_uid: h.old_file_uid@,
        new_file_uid: h.new_file_uid@,
    }
}

/// Outcome of reading one `KEY:VALUE` line.
pub enum KvStep {
    /// Key, value, and the position just past the line's newline.
    Done(Seq<char>, Seq<char>, int),
    Fail,
    Short,
}

/// Outcome of reading one required blank line.
pub enum LineStep {
    Done(int),
    Fail,
    Short,
}

/// Outcome of parsing the whole header block.
pub enum HdrStep {
    /// The record and the position where the markup body starts.
    Done(HeaderModel, int),
    Fail,
    Short,
}

/// Reads one `KEY:VALUE` line: everything up to the next newline, with one
/// trailing carriage return stripped, split at the first colon.  A line
/// that never ends is parse-incomplete; a line without a colon is a parse
/// error.
pub open spec fn spec_kv_line(s: Seq<char>, pos: int) -> KvStep {
    let le = scan_to_spec(s, pos, '\n');
    if !(0 <= pos && pos <= le && le <= s.len()) {
        KvStep::Fail
    } else if le >= s.len() {
        KvStep::Short
    } else {
        let ce = if le > pos && s[le - 1] == '\r' {
            le - 1
        } else {
            le
        };
        let cp = scan_to_spec(s, pos, ':');
        if cp >= ce {
            KvStep::Fail
        } else {
            KvStep::Done(s.subrange(pos, cp), s.subrange(cp + 1, ce), le + 1)
        }
    }
}

/// Reads the blank line that terminates the header.
pub open spec fn spec_blank_line(s: Seq<char>, pos: int) -> LineStep {
    let le = scan_to_spec(s, pos, '\n');
    if !(0 <= pos && pos <= le && le <= s.len()) {
        LineStep::Fail
    } else if le >= s.len() {
        LineStep::Short
    } else {
        let ce = if le > pos && s[le - 1] == '\r' {
            le - 1
        } else {
            le
        };
        if ce == pos {
            LineStep::Done(le + 1)
        } else {
            LineStep::Fail
        }
    }
}

/// Parses the whole header block: the nine keys in their fixed order, each
/// value checked against its domain, then the blank-line terminator.
pub open spec fn spec_header(s: Seq<char>) -> HdrStep {
    match spec_kv_line(s, 0) {
        KvStep::Fail => HdrStep::Fail,
        KvStep::Short => HdrStep::Short,
        KvStep::Done(k1, v1, p1) => if k1 != "OFXHEADER"@ || spec_u32_token(v1) is None {
            HdrStep::Fail
        } else {
            match spec_kv_line(s, p1) {
                KvStep::Fail => HdrStep::Fail,
                KvStep::Short => HdrStep::Short,
                KvStep::Done(k2, v2, p2) => if k2 != "DATA"@ || spec_content_type(v2) is None {
                    HdrStep::Fail
                } else {
                    match spec_kv_line(s, p2) {
                        KvStep::Fail => HdrStep::Fail,
                        KvStep::Short => HdrStep::Short,
                        KvStep::Done(k3, v3, p3) => if k3 != "VERSION"@ || spec_u32_token(v3)
                            is None {
                            HdrStep::Fail
                        } else {
                            match spec_kv_line(s, p3) {
                                KvStep::Fail => HdrStep::Fail,
                                KvStep::Short => HdrStep::Short,
                                KvStep::Done(k4, v4, p4) => if k4 != "SECURITY"@ || spec_security(
                                    v4,
                                ) is None {
                                    HdrStep::Fail
                                } else {
                                    spec_header_tail(s, v1, v2, v3, v4, p4)
                                },
                            }
                        },
                    }
                },
            }
        },
    }
}

/// The last five header lines and the terminator; split out of
/// `spec_header` only to keep each definition readable.
pub open spec fn spec_header_tail(
    s: Seq<char>,
    v1: Seq<char>,
    v2: Seq<char>,
    v3: Seq<char>,
    v4: Seq<char>,
    p4: int,
) -> HdrStep {
    match spec_kv_line(s, p4) {
        KvStep::Fail => HdrStep::Fail,
        KvStep::Short => HdrStep::Short,
        KvStep::Done(k5, v5, p5) => if k5 != "ENCODING"@ || spec_encoding(v5) is None {
            HdrStep::Fail
        } else {
            match spec_kv_line(s, p5) {
                KvStep::Fail => HdrStep::Fail,
                KvStep::Short => HdrStep::Short,
                KvStep::Done(k6, v6, p6) => if k6 != "CHARSET"@ || spec_charset(v6) is None {
                    HdrStep::Fail
                } else {
                    match spec_kv_line(s, p6) {
                        KvStep::Fail => HdrStep::Fail,
                        KvStep::Short => HdrStep::Short,
                        KvStep::Done(k7, v7, p7) => if k7 != "COMPRESSION"@ {
                            HdrStep::Fail
                        } else {
                            match spec_kv_line(s, p7) {
                                KvStep::Fail => HdrStep::Fail,
                                KvStep::Short => HdrStep::Short,
                                KvStep::Done(k8, v8, p8) => if k8 != "OLDFILEUID"@ {
                                    HdrStep::Fail
                                } else {
                                    match spec_kv_line(s, p8) {
                                        KvStep::Fail => HdrStep::Fail,
                                        KvStep::Short => HdrStep::Short,
                                        KvStep::Done(k9, v9, p9) => if k9 != "NEWFILEUID"@ {
                                            HdrStep::Fail
                                        } else {
                                            match spec_blank_line(s, p9) {
                                                LineStep::Fail => HdrStep::Fail,
                                                LineStep::Short => HdrStep::Short,
                                                LineStep::Done(body) => HdrStep::Done(
                                                    HeaderModel {
                                                        header_version: spec_u32_token(
                                                            v1,
                                                        ).unwrap(),
                                                        data: spec_content_type(v2).unwrap(),
                                                        version: spec_u32_token(v3).unwrap(),
                                                        security: spec_security(v4).unwrap(),
                                                        encoding: spec_encoding(v5).unwrap(),
                                                        charset: spec_charset(v6).unwrap(),
                                                        compression: v7,
                                                        old_file_uid: v8,
                                                        new_file_uid: v9,
                                                    },
                                                    body,
                                                ),
                                            }
                                        },
                                    }
                                },
                            }
                        },
                    }
                },
            }
        },
    }
}

/// Reads one `KEY:VALUE` line starting at `pos`.
fn kv_line(s: &str, pos: usize) -> (r: Result<(String, String, usize), Error>)
    requires
        pos <= s@.len(),
    ensures
        match spec_kv_line(s@, pos as int) {
            KvStep::Done(k, v, p) => r matches Ok((ks, vs, q)) && ks@ == k && vs@ == v && q == p
                && pos < q <= s@.len(),
            KvStep::Fail => r matches Err(e) && kind_of(e) == ErrorKind::ParseError,
            KvStep::Short => r matches Err(e) && e == Error::ParseIncomplete,
        },
{
    let n = s.unicode_len();
    let le = scan_to(s, pos, '\n');
    if le >= n {
        return Err(Error::ParseIncomplete);
    }
    let ce = if le > pos && s.get_char(le - 1) == '\r' {
        le - 1
    } else {
        le
    };
    let cp = scan_to(s, pos, ':');
    if cp >= ce {
        return Err(parse_err("header line without ':'"));
    }
    let k = String::from_str(s.substring_char(pos, cp));
    let v = String::from_str(s.substring_char(cp + 1, ce));
    Ok((k, v, le + 1))
}

/// Reads the blank line that terminates the header.
fn blank_line(s: &str, pos: usize) -> (r: Result<usize, Error>)
    requires
        pos <= s@.len(),
    ensures
        match spec_blank_line(s@, pos as int) {
            LineStep::Done(p) => r matches Ok(q) && q == p && pos < q <= s@.len(),
            LineStep::Fail => r matches Err(e) && kind_of(e) == ErrorKind::ParseError,
            LineStep::Short => r matches Err(e) && e == Error::ParseIncomplete,
        },
{
    let n = s.unicode_len();
    let le = scan_to(s, pos, '\n');
    if le >= n {
        return Err(Error::ParseIncomplete);
    }
    let ce = if le > pos && s.get_char(le - 1) == '\r' {
        le - 1
    } else {
        le
    };
    if ce != pos {
        return Err(parse_err("blank line expected after the header"));
    }
    Ok(le + 1)
}

/// Checks one header line against its expected key and hands its value
/// back.
fn expect_key(s: &str, pos: usize, key: &str) -> (r: Result<(String, usize), Error>)
    requires
        pos <= s@.len(),
    ensures
        match spec_kv_line(s@, pos as int) {
            KvStep::Done(k, v, p) => if k == key@ {
                r matches Ok((vs, q)) && vs@ == v && q == p && pos < q <= s@.len()
            } else {
                r matches Err(e) && kind_of(e) == ErrorKind::ParseError
            },
            KvStep::Fail => r matches Err(e) && kind_of(e) == ErrorKind::ParseError,
            KvStep::Short => r matches Err(e) && e == Error::ParseIncomplete,
        },
{
    match kv_line(s, pos) {
        Ok((k, v, q)) => {
            if str_eq(k.as_str(), key) {
                Ok((v, q))
            } else {
                Err(parse_err("unexpected header key"))
            }
        },
        Err(e) => Err(e),
    }
}

/// Parses the header block and returns the validated record together with
/// the byte position where the markup body starts.
#[verifier::rlimit(100)]
pub fn parse_header(s: &str) -> (r: Result<(OfxHeader, usize), Error>)
    ensures
        match spec_header(s@) {
            HdrStep::Done(m, body) => r matches Ok((h, q)) && header_model(h) == m && q == body
                && q <= s@.len(),
            HdrStep::Fail => r matches Err(e) && kind_of(e) == ErrorKind::ParseError,
            HdrStep::Short => r matches Err(e) && e == Error::ParseIncomplete,
        },
{
    let (v1, p1) = match expect_key(s, 0, "OFXHEADER") {
        Ok(x) => x,
        Err(e) => {
            return Err(e);
        },
    };
    let header_version = match parse_u32_token(v1.as_str()) {
        Some(x) => x,
        None => {
            return Err(parse_err("OFXHEADER value is not an integer"));
        },
    };
    let (v2, p2) = match expect_key(s, p1, "DATA") {
        Ok(x) => x,
        Err(e) => {
            return Err(e);
        },
    };
    let data = match parse_content_type(v2.as_str()) {
        Some(x) => x,
        None => {
            return Err(parse_err("DATA value is not a known content type"));
        },
    };
    let (v3, p3) = match expect_key(s, p2, "VERSION") {
        Ok(x) => x,
        Err(e) => {
            return Err(e);
        },
    };
    let version = match parse_u32_token(v3.as_str()) {
        Some(x) => x,
        None => {
            return Err(parse_err("VERSION value is not an integer"));
        },
    };
    let (v4, p4) = match expect_key(s, p3, "SECURITY") {
        Ok(x) => x,
        Err(e) => {
            return Err(e);
        },
    };
    let security = match parse_security(v4.as_str()) {
        Some(x) => x,
        None => {
            return Err(parse_err("SECURITY value is not a known token"));
        },
    };
    let (v5, p5) = match expect_key(s, p4, "ENCODING") {
        Ok(x) => x,
        Err(e) => {
            return Err(e);
        },
    };
    let encoding = match parse_encoding(v5.as_str()) {
        Some(x) => x,
        None => {
            return Err(parse_err("ENCODING value is not a known token"));
        },
    };
    let (v6, p6) = match expect_key(s, p5, "CHARSET") {
        Ok(x) => x,
        Err(e) => {
            return Err(e);
        },
    };
    let charset = match parse_charset(v6.as_str()) {
        Some(x) => x,
        None => {
            return Err(parse_err("CHARSET value is not a known token"));
        },
    };
    let (v7, p7) = match expect_key(s, p6, "COMPRESSION") {
        Ok(x) => x,
        Err(e) => {
            return Err(e);
        },
    };
    let (v8, p8) = match expect_key(s, p7, "OLDFILEUID") {
        Ok(x) => x,
        Err(e) => {
            return Err(e);
        },
    };
    let (v9, p9) = match expect_key(s, p8, "NEWFILEUID") {
        Ok(x) => x,
        Err(e) => {
            return Err(e);
        },
    };
    let body = match blank_line(s, p9) {
        Ok(x) => x,
        Err(e) => {
            return Err(e);
        },
    };
    let h = OfxHeader {
        header_version,
        data,
        version,
        security,
        encoding,
        charset,
        compression: v7,
        old_file_uid: v8,
        new_file_uid: v9,
    };
    Ok((h, body))
}

} // verus!
