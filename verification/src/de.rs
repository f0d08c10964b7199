//! The decode bridge: walks the element tree against a target shape and
//! produces a typed value or a decode error.
//!
//! The bridge is strictly forward and non-reentrant per aggregate.  Struct
//! fields are matched by name (after the fixed uppercase rendering), in
//! the order the target declares them; the first child bearing a name
//! wins, and later children with a declared name are dropped.  An optional
//! field that is present is decoded fully: a present-but-malformed
//! optional field is an error, never treated as absent.  A leaf requested
//! as a borrowed string must be free of escape sequences; an owned string
//! decodes them; enumeration matching rejects them outright.  The
//! top-level root enforces that no children remain once its shape is
//! satisfied: residual content there is a trailing-input error.
//!
//! Timestamp leaves run the datetime grammar and ignore any unconsumed
//! remainder of the leaf, taking the value the grammar produced.

use vstd::prelude::*;

use crate::datetime::{instant_ms_of, parse_datetime, spec_datetime, DtParse, OfxDateTime};
use crate::element::{
    lemma_children_model, models_of, parse_element, spec_element, Content, ContentModel, ElemStep,
    Element, ElementModel,
};
use crate::error::{deser_err, kind_of, parse_err, Error, ErrorKind};
use crate::header::{header_model, parse_header, spec_header, HdrStep, HeaderModel};
use crate::ofx::{
    parse_severity, spec_severity, Ofx, OfxRoot, Severity, SignonMessageSetV1, SignonResponse,
    StatusV1, StringMap,
};
use crate::text::{
    contains_escape, has_escape, parse_i32_token, skip_ws, skip_ws_spec, spec_i32_token, str_eq,
    unescape, unescape_from,
};

verus! {

/// The leaf text of an element, if it is a leaf.
pub open spec fn leaf_of(m: ElementModel) -> Option<Seq<char>> {
    match m.content {
        ContentModel::Leaf(t) => Some(t),
        ContentModel::Aggregate(_) => None,
    }
}

/// The children of an element offered to a struct target.  A leaf whose
/// trimmed text is empty decodes as an aggregate with no children (the
/// shape an empty element such as `<OFX></OFX>` parses to); a leaf with
/// text has no children to offer.
pub open spec fn children_of(m: ElementModel) -> Option<Seq<ElementModel>> {
    match m.content {
        ContentModel::Aggregate(cs) => Some(cs),
        ContentModel::Leaf(t) => if t.len() == 0 {
            Some(Seq::empty())
        } else {
            None
        },
    }
}

/// The first child bearing `name`, which is the one a struct field
/// consumes.
pub open spec fn first_child(cs: Seq<ElementModel>, name: Seq<char>) -> Option<ElementModel>
    decreases cs.len(),
{
    if cs.len() == 0 {
        None
    } else if cs[0].name == name {
        Some(cs[0])
    } else {
        first_child(cs.drop_first(), name)
    }
}

/// What one named field finds in an aggregate's children.
pub enum Field<A> {
    /// No child bears the field's name.
    Absent,
    /// The field's value.
    Present(A),
    /// The child is there but cannot be decoded as requested.
    Broken(ErrorKind),
}

/// A borrowed-string field: the leaf must be escape-free.
pub open spec fn spec_borrowed_field(cs: Seq<ElementModel>, name: Seq<char>) -> Field<Seq<char>> {
    match first_child(cs, name) {
        None => Field::Absent,
        Some(c) => match leaf_of(c) {
            None => Field::Broken(ErrorKind::Deserialize),
            Some(t) => if has_escape(t) {
                Field::Broken(ErrorKind::InvalidBorrowedStr)
            } else {
                Field::Present(t)
            },
        },
    }
}

/// A numeric scalar field: the ordinary text-to-value rule, whose failure
/// is a parse error.
pub open spec fn spec_i32_field(cs: Seq<ElementModel>, name: Seq<char>) -> Field<int> {
    match first_child(cs, name) {
        None => Field::Absent,
        Some(c) => match leaf_of(c) {
            None => Field::Broken(ErrorKind::Deserialize),
            Some(t) => match spec_i32_token(t) {
                None => Field::Broken(ErrorKind::ParseError),
                Some(v) => Field::Present(v),
            },
        },
    }
}

/// An enumeration field: escapes are rejected outright, and the text must
/// equal a variant's uppercase rendering.
pub open spec fn spec_severity_field(cs: Seq<ElementModel>, name: Seq<char>) -> Field<Severity> {
    match first_child(cs, name) {
        None => Field::Absent,
        Some(c) => match leaf_of(c) {
            None => Field::Broken(ErrorKind::Deserialize),
            Some(t) => if has_escape(t) {
                Field::Broken(ErrorKind::EscapesInEnumVariant)
            } else {
                match spec_severity(t) {
                    None => Field::Broken(ErrorKind::Deserialize),
                    Some(sv) => Field::Present(sv),
                }
            },
        },
    }
}

/// A timestamp field: the leaf runs the datetime grammar; what the
/// grammar leaves unconsumed is ignored.
pub open spec fn spec_datetime_field(cs: Seq<ElementModel>, name: Seq<char>) -> Field<int> {
    match first_child(cs, name) {
        None => Field::Absent,
        Some(c) => match leaf_of(c) {
            None => Field::Broken(ErrorKind::Deserialize),
            Some(t) => if has_escape(t) {
                Field::Broken(ErrorKind::InvalidBorrowedStr)
            } else {
                match spec_datetime(t) {
                    DtParse::Value(p, _) => Field::Present(instant_ms_of(p)),
                    DtParse::Malformed => Field::Broken(ErrorKind::ParseError),
                    DtParse::Short => Field::Broken(ErrorKind::ParseIncomplete),
                }
            },
        },
    }
}

/// Finds the first child bearing `name`, starting at `from`.
fn find_child<'a>(cs: &'a Vec<Element>, name: &str, from: usize) -> (r: Option<&'a Element>)
    requires
        from <= cs@.len(),
    ensures
        match r {
            Some(e) => first_child(models_of(cs@).skip(from as int), name@) == Some(e.model()),
            None => first_child(models_of(cs@).skip(from as int), name@) is None,
        },
    decreases cs@.len() - from,
{
    let ghost ms = models_of(cs@);
    if from == cs.len() {
        proof {
            assert(ms.skip(from as int) =~= Seq::<ElementModel>::empty());
        }
        None
    } else {
        proof {
            assert(ms.skip(from as int)[0] == ms[from as int]);
            assert(ms.skip(from as int).drop_first() =~= ms.skip(from as int + 1));
        }
        let e = &cs[from];
        if str_eq(e.name.as_str(), name) {
            Some(e)
        } else {
            find_child(cs, name, from + 1)
        }
    }
}

/// Finds the first child bearing `name`.
fn find_first_child<'a>(cs: &'a Vec<Element>, name: &str) -> (r: Option<&'a Element>)
    ensures
        match r {
            Some(e) => first_child(models_of(cs@), name@) == Some(e.model()),
            None => first_child(models_of(cs@), name@) is None,
        },
{
    proof {
        assert(models_of(cs@).skip(0) =~= models_of(cs@));
    }
    find_child(cs, name, 0)
}

/// Decodes a leaf as a borrowed string: a direct copy of the source text,
/// refused outright when escape sequences are present.
pub fn decode_borrowed_text(e: &Element) -> (r: Result<String, Error>)
    ensures
        match leaf_of(e.model()) {
            None => r matches Err(er) && kind_of(er) == ErrorKind::Deserialize,
            Some(t) => if has_escape(t) {
                r matches Err(er) && er == Error::InvalidBorrowedStr
            } else {
                r matches Ok(v) && v@ == t
            },
        },
{
    match &e.content {
        Content::Aggregate(_) => Err(deser_err("leaf text expected")),
        Content::Leaf(t) => {
            if contains_escape(t.as_str()) {
                Err(Error::InvalidBorrowedStr)
            } else {
                Ok(t.clone())
            }
        },
    }
}

/// Decodes a leaf as an owned string, decoding its escape sequences.
pub fn decode_owned_text(e: &Element) -> (r: Result<String, Error>)
    ensures
        match leaf_of(e.model()) {
            None => r matches Err(er) && kind_of(er) == ErrorKind::Deserialize,
            Some(t) => match unescape_from(t, 0) {
                Some(u) => r matches Ok(v) && v@ == u,
                None => r matches Err(er) && kind_of(er) == ErrorKind::ParseError,
            },
        },
{
    match &e.content {
        Content::Aggregate(_) => Err(deser_err("leaf text expected")),
        Content::Leaf(t) => {
            match unescape(t.as_str()) {
                Some(o) => Ok(o),
                None => Err(parse_err("unknown escape sequence")),
            }
        },
    }
}

/// Decodes a leaf as a signed number.
pub fn decode_i32(e: &Element) -> (r: Result<i32, Error>)
    ensures
        match leaf_of(e.model()) {
            None => r matches Err(er) && kind_of(er) == ErrorKind::Deserialize,
            Some(t) => match spec_i32_token(t) {
                Some(v) => r matches Ok(u) && u == v,
                None => r matches Err(er) && kind_of(er) == ErrorKind::ParseError,
            },
        },
{
    match &e.content {
        Content::Aggregate(_) => Err(deser_err("leaf text expected")),
        Content::Leaf(t) => {
            match parse_i32_token(t.as_str()) {
                Some(v) => Ok(v),
                None => Err(parse_err("number expected in leaf")),
            }
        },
    }
}

/// Decodes a leaf as a severity.
pub fn decode_severity(e: &Element) -> (r: Result<Severity, Error>)
    ensures
        match leaf_of(e.model()) {
            None => r matches Err(er) && kind_of(er) == ErrorKind::Deserialize,
            Some(t) => if has_escape(t) {
                r matches Err(er) && er == Error::EscapesInEnumVariant
            } else {
                match spec_severity(t) {
                    Some(sv) => r matches Ok(u) && u == sv,
                    None => r matches Err(er) && kind_of(er) == ErrorKind::Deserialize,
                }
            },
        },
{
    match &e.content {
        Content::Aggregate(_) => Err(deser_err("leaf text expected")),
        Content::Leaf(t) => {
            if contains_escape(t.as_str()) {
                Err(Error::EscapesInEnumVariant)
            } else {
                match parse_severity(t.as_str()) {
                    Some(sv) => Ok(sv),
                    None => Err(deser_err("unknown severity")),
                }
            }
        },
    }
}

/// Decodes a leaf as a timestamp, ignoring what the grammar leaves
/// unconsumed.
pub fn decode_datetime(e: &Element) -> (r: Result<OfxDateTime, Error>)
    ensures
        match leaf_of(e.model()) {
            None => r matches Err(er) && kind_of(er) == ErrorKind::Deserialize,
            Some(t) => if has_escape(t) {
                r matches Err(er) && er == Error::InvalidBorrowedStr
            } else {
                match spec_datetime(t) {
                    DtParse::Value(p, _) => r matches Ok(dt) && dt.instant_ms == instant_ms_of(p),
                    DtParse::Malformed => r matches Err(er) && kind_of(er) == ErrorKind::ParseError,
                    DtParse::Short => r matches Err(er) && er == Error::ParseIncomplete,
                }
            },
        },
{
    match &e.content {
        Content::Aggregate(_) => Err(deser_err("leaf text expected")),
        Content::Leaf(t) => {
            if contains_escape(t.as_str()) {
                return Err(Error::InvalidBorrowedStr);
            }
            match parse_datetime(t.as_str()) {
                Ok((dt, _rest)) => Ok(dt),
                Err(er) => Err(er),
            }
        },
    }
}

/// Hands out the `i`th child for sequence/tuple decoding, in document
/// order; asking past the end is how a sequence shorter than the declared
/// arity surfaces.
pub fn require_child<'a>(cs: &'a Vec<Element>, i: usize) -> (r: Result<&'a Element, Error>)
    ensures
        i < cs@.len() ==> (r matches Ok(e) && e.model() == models_of(cs@)[i as int]),
        i >= cs@.len() ==> (r matches Err(er) && er == Error::InvalidTupleLength),
{
    if i < cs.len() {
        Ok(&cs[i])
    } else {
        Err(Error::InvalidTupleLength)
    }
}

/// The bridge does not model binary blobs: requesting one fails.
pub fn decode_binary(_e: &Element) -> (r: Result<Vec<u8>, Error>)
    ensures
        r matches Err(er) && er == Error::UnsupportedDataType,
{
    Err(Error::UnsupportedDataType)
}

fn borrowed_field(cs: &Vec<Element>, name: &str) -> (r: Result<Option<String>, Error>)
    ensures
        match spec_borrowed_field(models_of(cs@), name@) {
            Field::Absent => r matches Ok(o) && o is None,
            Field::Present(t) => r matches Ok(o) && o matches Some(v) && v@ == t,
            Field::Broken(k) => r matches Err(e) && kind_of(e) == k,
        },
{
    match find_first_child(cs, name) {
        None => Ok(None),
        Some(el) => match decode_borrowed_text(el) {
            Ok(v) => Ok(Some(v)),
            Err(e) => Err(e),
        },
    }
}

fn i32_field(cs: &Vec<Element>, name: &str) -> (r: Result<Option<i32>, Error>)
    ensures
        match spec_i32_field(models_of(cs@), name@) {
            Field::Absent => r matches Ok(o) && o is None,
            Field::Present(t) => r matches Ok(o) && o matches Some(v) && v == t,
            Field::Broken(k) => r matches Err(e) && kind_of(e) == k,
        },
{
    match find_first_child(cs, name) {
        None => Ok(None),
        Some(el) => match decode_i32(el) {
            Ok(v) => Ok(Some(v)),
            Err(e) => Err(e),
        },
    }
}

fn severity_field(cs: &Vec<Element>, name: &str) -> (r: Result<Option<Severity>, Error>)
    ensures
        match spec_severity_field(models_of(cs@), name@) {
            Field::Absent => r matches Ok(o) && o is None,
            Field::Present(t) => r matches Ok(o) && o matches Some(v) && v == t,
            Field::Broken(k) => r matches Err(e) && kind_of(e) == k,
        },
{
    match find_first_child(cs, name) {
        None => Ok(None),
        Some(el) => match decode_severity(el) {
            Ok(v) => Ok(Some(v)),
            Err(e) => Err(e),
        },
    }
}

fn datetime_field(cs: &Vec<Element>, name: &str) -> (r: Result<Option<OfxDateTime>, Error>)
    ensures
        match spec_datetime_field(models_of(cs@), name@) {
            Field::Absent => r matches Ok(o) && o is None,
            Field::Present(t) => r matches Ok(o) && o matches Some(v) && v.instant_ms == t,
            Field::Broken(k) => r matches Err(e) && kind_of(e) == k,
        },
{
    match find_first_child(cs, name) {
        None => Ok(None),
        Some(el) => match decode_datetime(el) {
            Ok(v) => Ok(Some(v)),
            Err(e) => Err(e),
        },
    }
}

/// The field names the signon response declares; everything else falls to
/// its catch-all.
pub open spec fn is_signon_field(nm: Seq<char>) -> bool {
    nm == "STATUS"@ || nm == "DTSERVER"@ || nm == "USERKEY"@ || nm == "TSKEYEXPIRE"@ || nm
        == "LANGUAGE"@
}

/// Outcome of collecting a catch-all mapping.
pub enum CatchSpec {
    GoodC(Map<Seq<char>, Seq<char>>),
    BadC(ErrorKind),
}

/// Collects every unmatched leaf child into a name-to-text mapping, later
/// occurrences of a name shadowing earlier ones.  An unmatched non-leaf
/// child is a decode error, and an unmatched leaf holding an escape
/// sequence fails the borrowed decode of its text.
pub open spec fn spec_signon_extras(cs: Seq<ElementModel>) -> CatchSpec
    decreases cs.len(),
{
    if cs.len() == 0 {
        CatchSpec::GoodC(Map::empty())
    } else {
        match spec_signon_extras(cs.drop_last()) {
            CatchSpec::BadC(k) => CatchSpec::BadC(k),
            CatchSpec::GoodC(mp) => {
                let c = cs.last();
                if is_signon_field(c.name) {
                    CatchSpec::GoodC(mp)
                } else {
                    match c.content {
                        ContentModel::Aggregate(_) => CatchSpec::BadC(ErrorKind::Deserialize),
                        ContentModel::Leaf(t) => if has_escape(t) {
                            CatchSpec::BadC(ErrorKind::InvalidBorrowedStr)
                        } else {
                            CatchSpec::GoodC(mp.insert(c.name, t))
                        },
                    }
                }
            },
        }
    }
}

/// A failed prefix decides the catch-all's outcome whatever follows it.
proof fn lemma_extras_bad_persists(cs: Seq<ElementModel>, i: int, j: int)
    requires
        0 <= i <= j <= cs.len(),
        spec_signon_extras(cs.subrange(0, i)) matches CatchSpec::BadC(_),
    ensures
        spec_signon_extras(cs.subrange(0, j)) == spec_signon_extras(cs.subrange(0, i)),
    decreases j - i,
{
    if j > i {
        lemma_extras_bad_persists(cs, i, j - 1);
        assert(cs.subrange(0, j).drop_last() =~= cs.subrange(0, j - 1));
    }
}

fn signon_extras(cs: &Vec<Element>) -> (r: Result<StringMap, Error>)
    ensures
        match spec_signon_extras(models_of(cs@)) {
            CatchSpec::GoodC(mp) => r matches Ok(sm) && sm@ == mp,
            CatchSpec::BadC(k) => r matches Err(e) && kind_of(e) == k,
        },
{
    let ghost ms = models_of(cs@);
    let n = cs.len();
    let mut sm = StringMap::new();
    let mut i: usize = 0;
    proof {
        assert(ms.subrange(0, 0) =~= Seq::<ElementModel>::empty());
    }
    while i < n
        invariant
            i <= n,
            n == cs@.len(),
            ms == models_of(cs@),
            spec_signon_extras(ms.subrange(0, i as int)) == CatchSpec::GoodC(sm@),
        decreases n - i,
    {
        let e = &cs[i];
        proof {
            assert(ms.subrange(0, i as int + 1).drop_last() =~= ms.subrange(0, i as int));
            assert(ms.subrange(0, i as int + 1).last() == ms[i as int]);
        }
        let named = str_eq(e.name.as_str(), "STATUS") || str_eq(e.name.as_str(), "DTSERVER")
            || str_eq(e.name.as_str(), "USERKEY") || str_eq(e.name.as_str(), "TSKEYEXPIRE")
            || str_eq(e.name.as_str(), "LANGUAGE");
        if !named {
            match &e.content {
                Content::Aggregate(_) => {
                    proof {
                        lemma_extras_bad_persists(ms, i as int + 1, n as int);
                        assert(ms.subrange(0, n as int) =~= ms);
                    }
                    return Err(deser_err("unmatched non-leaf child in catch-all"));
                },
                Content::Leaf(t) => {
                    if contains_escape(t.as_str()) {
                        proof {
                            lemma_extras_bad_persists(ms, i as int + 1, n as int);
                            assert(ms.subrange(0, n as int) =~= ms);
                        }
                        return Err(Error::InvalidBorrowedStr);
                    }
                    sm.insert(e.name.clone(), t.clone());
                },
            }
        }
        i = i + 1;
    }
    proof {
        assert(ms.subrange(0, n as int) =~= ms);
    }
    Ok(sm)
}

/// Outcome of decoding a status aggregate: code, severity and message, or
/// the kind of the first failure in field order.
pub enum StatusSpec {
    GoodStatus(int, Severity, Seq<char>),
    BadStatus(ErrorKind),
}

/// Decodes `<STATUS>`: required `CODE` (number), `SEVERITY` (enumeration)
/// and `MESSAGE` (borrowed string); unmatched children are dropped, since
/// the target declares no catch-all.
pub open spec fn spec_decode_status(m: ElementModel) -> StatusSpec {
    match children_of(m) {
        None => StatusSpec::BadStatus(ErrorKind::Deserialize),
        Some(cs) => match spec_i32_field(cs, "CODE"@) {
            Field::Absent => StatusSpec::BadStatus(ErrorKind::Deserialize),
            Field::Broken(k) => StatusSpec::BadStatus(k),
            Field::Present(code) => match spec_severity_field(cs, "SEVERITY"@) {
                Field::Absent => StatusSpec::BadStatus(ErrorKind::Deserialize),
                Field::Broken(k) => StatusSpec::BadStatus(k),
                Field::Present(sev) => match spec_borrowed_field(cs, "MESSAGE"@) {
                    Field::Absent => StatusSpec::BadStatus(ErrorKind::Deserialize),
                    Field::Broken(k) => StatusSpec::BadStatus(k),
                    Field::Present(msg) => StatusSpec::GoodStatus(code, sev, msg),
                },
            },
        },
    }
}

/// Decodes a status aggregate.
pub fn decode_status(e: &Element) -> (r: Result<StatusV1, Error>)
    ensures
        match spec_decode_status(e.model()) {
            StatusSpec::GoodStatus(code, sev, msg) => r matches Ok(st) && st.code == code
                && st.severity == sev && st.message@ == msg,
            StatusSpec::BadStatus(k) => r matches Err(er) && kind_of(er) == k,
        },
{
    let cs = match &e.content {
        Content::Aggregate(v) => {
            proof {
                lemma_children_model(e);
            }
            v
        },
        Content::Leaf(_) => {
            return Err(deser_err("STATUS must be an aggregate"));
        },
    };
    let code = match i32_field(cs, "CODE") {
        Ok(Some(v)) => v,
        Ok(None) => {
            return Err(deser_err("CODE is required"));
        },
        Err(er) => {
            return Err(er);
        },
    };
    let severity = match severity_field(cs, "SEVERITY") {
        Ok(Some(v)) => v,
        Ok(None) => {
            return Err(deser_err("SEVERITY is required"));
        },
        Err(er) => {
            return Err(er);
        },
    };
    let message = match borrowed_field(cs, "MESSAGE") {
        Ok(Some(v)) => v,
        Ok(None) => {
            return Err(deser_err("MESSAGE is required"));
        },
        Err(er) => {
            return Err(er);
        },
    };
    Ok(StatusV1 { code, severity, message })
}

/// The mathematical shape of a decoded signon response.
pub struct SignonModel {
    pub code: int,
    pub severity: Severity,
    pub message: Seq<char>,
    pub dtserver: int,
    pub userkey: Option<Seq<char>>,
    pub tskeyexpire: Option<int>,
    pub language: Seq<char>,
    pub unknown: Map<Seq<char>, Seq<char>>,
}

/// Outcome of decoding a signon response.
pub enum SignonSpec {
    GoodSignon(SignonModel),
    BadSignon(ErrorKind),
}

/// Decodes `<SONRS>`: required `STATUS` aggregate, `DTSERVER` timestamp
/// and `LANGUAGE` string; optional `USERKEY` and `TSKEYEXPIRE` (present
/// but malformed is an error, not absence); every other leaf child goes to
/// the catch-all.
pub open spec fn spec_decode_signon(m: ElementModel) -> SignonSpec {
    match children_of(m) {
        None => SignonSpec::BadSignon(ErrorKind::Deserialize),
        Some(cs) => match first_child(cs, "STATUS"@) {
            None => SignonSpec::BadSignon(ErrorKind::Deserialize),
            Some(c) => match spec_decode_status(c) {
                StatusSpec::BadStatus(k) => SignonSpec::BadSignon(k),
                StatusSpec::GoodStatus(code, sev, msg) => match spec_datetime_field(
                    cs,
                    "DTSERVER"@,
                ) {
                    Field::Absent => SignonSpec::BadSignon(ErrorKind::Deserialize),
                    Field::Broken(k) => SignonSpec::BadSignon(k),
                    Field::Present(dts) => match spec_borrowed_field(cs, "USERKEY"@) {
                        Field::Broken(k) => SignonSpec::BadSignon(k),
                        uk => match spec_datetime_field(cs, "TSKEYEXPIRE"@) {
                            Field::Broken(k) => SignonSpec::BadSignon(k),
                            tk => match spec_borrowed_field(cs, "LANGUAGE"@) {
                                Field::Absent => SignonSpec::BadSignon(ErrorKind::Deserialize),
                                Field::Broken(k) => SignonSpec::BadSignon(k),
                                Field::Present(lang) => match spec_signon_extras(cs) {
                                    CatchSpec::BadC(k) => SignonSpec::BadSignon(k),
                                    CatchSpec::GoodC(mp) => SignonSpec::GoodSignon(
                                        SignonModel {
                                            code,
                                            severity: sev,
                                            message: msg,
                                            dtserver: dts,
                                            userkey: match uk {
                                                Field::Present(t) => Some(t),
                                                _ => None,
                                            },
                                            tskeyexpire: match tk {
                                                Field::Present(i) => Some(i),
                                                _ => None,
                                            },
                                            language: lang,
                                            unknown: mp,
                                        },
                                    ),
                                },
                            },
                        },
                    },
                },
            },
        },
    }
}

/// A decoded signon response agrees with its model in every field.
pub open spec fn signon_matches(sr: SignonResponse, m: SignonModel) -> bool {
    &&& sr.status.code == m.code
    &&& sr.status.severity == m.severity
    &&& sr.status.message@ == m.message
    &&& sr.dtserver.instant_ms == m.dtserver
    &&& (match (sr.userkey, m.userkey) {
        (Option::None, Option::None) => true,
        (Option::Some(u), Option::Some(t)) => u@ == t,
        _ => false,
    })
    &&& (match (sr.tskeyexpire, m.tskeyexpire) {
        (Option::None, Option::None) => true,
        (Option::Some(d), Option::Some(i)) => d.instant_ms == i,
        _ => false,
    })
    &&& sr.language@ == m.language
    &&& sr.unknown@ == m.unknown
}

/// Decodes a signon response aggregate.
#[verifier::rlimit(100)]
pub fn decode_signon_response(e: &Element) -> (r: Result<SignonResponse, Error>)
    ensures
        match spec_decode_signon(e.model()) {
            SignonSpec::GoodSignon(sm) => r matches Ok(sr) && signon_matches(sr, sm),
            SignonSpec::BadSignon(k) => r matches Err(er) && kind_of(er) == k,
        },
{
    let cs = match &e.content {
        Content::Aggregate(v) => {
            proof {
                lemma_children_model(e);
            }
            v
        },
        Content::Leaf(_) => {
            return Err(deser_err("SONRS must be an aggregate"));
        },
    };
    let status_el = match find_first_child(cs, "STATUS") {
        Some(x) => x,
        None => {
            return Err(deser_err("STATUS is required"));
        },
    };
    let status = match decode_status(status_el) {
        Ok(x) => x,
        Err(er) => {
            return Err(er);
        },
    };
    let dtserver = match datetime_field(cs, "DTSERVER") {
        Ok(Some(v)) => v,
        Ok(None) => {
            return Err(deser_err("DTSERVER is required"));
        },
        Err(er) => {
            return Err(er);
        },
    };
    let userkey = match borrowed_field(cs, "USERKEY") {
        Ok(o) => o,
        Err(er) => {
            return Err(er);
        },
    };
    let tskeyexpire = match datetime_field(cs, "TSKEYEXPIRE") {
        Ok(o) => o,
        Err(er) => {
            return Err(er);
        },
    };
    let language = match borrowed_field(cs, "LANGUAGE") {
        Ok(Some(v)) => v,
        Ok(None) => {
            return Err(deser_err("LANGUAGE is required"));
        },
        Err(er) => {
            return Err(er);
        },
    };
    let unknown = match signon_extras(cs) {
        Ok(x) => x,
        Err(er) => {
            return Err(er);
        },
    };
    Ok(SignonResponse { status, dtserver, userkey, tskeyexpire, language, unknown })
}

/// Outcome of decoding a signon message set.
pub enum SetSpec {
    GoodSet(Option<SignonModel>),
    BadSet(ErrorKind),
}

/// Decodes `<SIGNONMSGSRSV1>`: one optional `SONRS`; unmatched children
/// are dropped.
pub open spec fn spec_decode_signon_set(m: ElementModel) -> SetSpec {
    match children_of(m) {
        None => SetSpec::BadSet(ErrorKind::Deserialize),
        Some(cs) => match first_child(cs, "SONRS"@) {
            None => SetSpec::GoodSet(None),
            Some(c) => match spec_decode_signon(c) {
                SignonSpec::BadSignon(k) => SetSpec::BadSet(k),
                SignonSpec::GoodSignon(sm) => SetSpec::GoodSet(Some(sm)),
            },
        },
    }
}

/// A decoded message set agrees with its model.
pub open spec fn set_matches(set: SignonMessageSetV1, v: Option<SignonModel>) -> bool {
    match (set.sonrs, v) {
        (Option::None, Option::None) => true,
        (Option::Some(sr), Option::Some(sm)) => signon_matches(sr, sm),
        _ => false,
    }
}

/// Decodes a signon message set aggregate.
pub fn decode_signon_set(e: &Element) -> (r: Result<SignonMessageSetV1, Error>)
    ensures
        match spec_decode_signon_set(e.model()) {
            SetSpec::GoodSet(v) => r matches Ok(set) && set_matches(set, v),
            SetSpec::BadSet(k) => r matches Err(er) && kind_of(er) == k,
        },
{
    let cs = match &e.content {
        Content::Aggregate(v) => {
            proof {
                lemma_children_model(e);
            }
            v
        },
        Content::Leaf(t) => {
            if t.as_str().unicode_len() == 0 {
                return Ok(SignonMessageSetV1 { sonrs: None });
            }
            return Err(deser_err("SIGNONMSGSRSV1 must be an aggregate"));
        },
    };
    match find_first_child(cs, "SONRS") {
        None => Ok(SignonMessageSetV1 { sonrs: None }),
        Some(c) => match decode_signon_response(c) {
            Ok(sr) => Ok(SignonMessageSetV1 { sonrs: Some(sr) }),
            Err(er) => Err(er),
        },
    }
}

/// Outcome of decoding the document root.
pub enum RootSpec {
    GoodRoot(Option<Option<SignonModel>>),
    BadRoot(ErrorKind),
}

/// Decodes the root `<OFX>` aggregate: one optional `SIGNONMSGSRSV1`.
/// The root is the top-level target, so a child its shape does not
/// consume is a trailing-input error, not dropped.
pub open spec fn spec_decode_root(m: ElementModel) -> RootSpec {
    match children_of(m) {
        None => RootSpec::BadRoot(ErrorKind::Deserialize),
        Some(cs) => if cs.len() == 0 {
            RootSpec::GoodRoot(None)
        } else if cs[0].name != "SIGNONMSGSRSV1"@ {
            RootSpec::BadRoot(ErrorKind::TrailingInput)
        } else {
            match spec_decode_signon_set(cs[0]) {
                SetSpec::BadSet(k) => RootSpec::BadRoot(k),
                SetSpec::GoodSet(v) => if cs.len() == 1 {
                    RootSpec::GoodRoot(Some(v))
                } else {
                    RootSpec::BadRoot(ErrorKind::TrailingInput)
                },
            }
        },
    }
}

/// A decoded root agrees with its model.
pub open spec fn root_matches(root: OfxRoot, v: Option<Option<SignonModel>>) -> bool {
    match (root.signonmsgsrsv1, v) {
        (Option::None, Option::None) => true,
        (Option::Some(set), Option::Some(sv)) => set_matches(set, sv),
        _ => false,
    }
}

/// A root whose children fully satisfy its shape — no child, or exactly
/// one decodable signon message set — decodes successfully.
pub proof fn lemma_satisfied_root_decodes(m: ElementModel)
    requires
        children_of(m) is Some,
        children_of(m).unwrap().len() <= 1,
        children_of(m).unwrap().len() == 1 ==> children_of(m).unwrap()[0].name
            == "SIGNONMSGSRSV1"@ && spec_decode_signon_set(children_of(m).unwrap()[0]) is GoodSet,
    ensures
        spec_decode_root(m) is GoodRoot,
{
}

/// The same root with one extra unexpected sibling fails as trailing
/// input: the top-level target leaves no child unconsumed.
pub proof fn lemma_extra_root_child_is_trailing_input(m: ElementModel)
    requires
        children_of(m) is Some,
        children_of(m).unwrap().len() >= 2,
        children_of(m).unwrap()[0].name == "SIGNONMSGSRSV1"@,
        spec_decode_signon_set(children_of(m).unwrap()[0]) is GoodSet,
    ensures
        spec_decode_root(m) == RootSpec::BadRoot(ErrorKind::TrailingInput),
{
}

/// Decodes the root aggregate of a document.
pub fn decode_ofx_root(e: &Element) -> (r: Result<OfxRoot, Error>)
    ensures
        match spec_decode_root(e.model()) {
            RootSpec::GoodRoot(v) => r matches Ok(root) && root_matches(root, v),
            RootSpec::BadRoot(k) => r matches Err(er) && kind_of(er) == k,
        },
{
    let cs = match &e.content {
        Content::Aggregate(v) => {
            proof {
                lemma_children_model(e);
            }
            v
        },
        Content::Leaf(t) => {
            if t.as_str().unicode_len() == 0 {
                return Ok(OfxRoot { signonmsgsrsv1: None });
            }
            return Err(deser_err("OFX must be an aggregate"));
        },
    };
    if cs.len() == 0 {
        return Ok(OfxRoot { signonmsgsrsv1: None });
    }
    let first = &cs[0];
    if !str_eq(first.name.as_str(), "SIGNONMSGSRSV1") {
        return Err(Error::TrailingInput);
    }
    let set = match decode_signon_set(first) {
        Ok(x) => x,
        Err(er) => {
            return Err(er);
        },
    };
    if cs.len() > 1 {
        return Err(Error::TrailingInput);
    }
    Ok(OfxRoot { signonmsgsrsv1: Some(set) })
}

/// Outcome of decoding a whole document.
pub enum DocSpec {
    GoodDoc(HeaderModel, Option<Option<SignonModel>>),
    BadDoc(ErrorKind),
}

/// One decode pass over a whole document: the header block, then the root
/// element, then the requirement that nothing but whitespace follows the
/// root, then the root's decode.
pub open spec fn spec_document(s: Seq<char>) -> DocSpec {
    match spec_header(s) {
        HdrStep::Fail => DocSpec::BadDoc(ErrorKind::ParseError),
        HdrStep::Short => DocSpec::BadDoc(ErrorKind::ParseIncomplete),
        HdrStep::Done(hm, body) => match spec_element(s, body) {
            ElemStep::Fail => DocSpec::BadDoc(ErrorKind::ParseError),
            ElemStep::Short => DocSpec::BadDoc(ErrorKind::ParseIncomplete),
            ElemStep::Done(em, p) => if skip_ws_spec(s, p) < s.len() {
                DocSpec::BadDoc(ErrorKind::TrailingInput)
            } else {
                match spec_decode_root(em) {
                    RootSpec::BadRoot(k) => DocSpec::BadDoc(k),
                    RootSpec::GoodRoot(v) => DocSpec::GoodDoc(hm, v),
                }
            },
        },
    }
}

/// Decodes an OFX document from a string: header, element tree, typed
/// root.  The single entry point of the crate.
pub fn from_str(s: &str) -> (r: Result<Ofx, Error>)
    ensures
        match spec_document(s@) {
            DocSpec::GoodDoc(hm, v) => r matches Ok(doc) && header_model(doc.header) == hm
                && root_matches(doc.ofx, v),
            DocSpec::BadDoc(k) => r matches Err(er) && kind_of(er) == k,
        },
{
    let (header, body) = match parse_header(s) {
        Ok(x) => x,
        Err(er) => {
            return Err(er);
        },
    };
    let (root_el, p) = match parse_element(s, body) {
        Ok(x) => x,
        Err(er) => {
            return Err(er);
        },
    };
    let n = s.unicode_len();
    let q = skip_ws(s, p);
    if q < n {
        return Err(Error::TrailingInput);
    }
    let ofx = match decode_ofx_root(&root_el) {
        Ok(x) => x,
        Err(er) => {
            return Err(er);
        },
    };
    Ok(Ofx { header, ofx })
}

} // verus!
