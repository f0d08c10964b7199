//! The typed values an OFX response document decodes into, and the
//! mapping type used for catch-all fields.

use vstd::prelude::*;

use crate::datetime::OfxDateTime;
use crate::header::OfxHeader;
use crate::text::str_eq;

verus! {

/// Status severity, matched against a leaf by the fixed uppercase
/// rendering of the variant names.
#[derive(Clone, Copy, Debug, PartialEq, Eq, Structural)]
pub enum Severity {
    Info,
    Warn,
    Error,
}

/// The severity a leaf text denotes, if any.
pub open spec fn spec_severity(t: Seq<char>) -> Option<Severity> {
    if t == "INFO"@ {
        Some(Severity::Info)
    } else if t == "WARN"@ {
        Some(Severity::Warn)
    } else if t == "ERROR"@ {
        Some(Severity::Error)
    } else {
        None
    }
}

/// The uppercase rendering a severity is matched by.
pub open spec fn severity_token(v: Severity) -> Seq<char> {
    match v {
        Severity::Info => "INFO"@,
        Severity::Warn => "WARN"@,
        Severity::Error => "ERROR"@,
    }
}

impl Severity {
    /// Renders the value as the leaf text it is matched by.
    pub fn token(&self) -> (r: &'static str)
        ensures
            r@ == severity_token(*self),
    {
        match self {
            Severity::Info => "INFO",
            Severity::Warn => "WARN",
            Severity::Error => "ERROR",
        }
    }
}

/// Re-encoding a severity and decoding it again reproduces the value.
pub proof fn lemma_severity_round_trip(v: Severity)
    ensures
        spec_severity(severity_token(v)) == Some(v),
{
    reveal_strlit("INFO");
    reveal_strlit("WARN");
    reveal_strlit("ERROR");
    assert(("INFO")@[0] == 'I');
    assert(("WARN")@[0] == 'W');
    assert(("ERROR")@.len() == 5);
    assert(("INFO")@.len() == 4);
    assert(("WARN")@.len() == 4);
}

/// A leaf text that decodes to a severity is that value's own rendering.
pub proof fn lemma_severity_render(t: Seq<char>)
    requires
        spec_severity(t) is Some,
    ensures
        severity_token(spec_severity(t).unwrap()) == t,
{
}

/// Parses a severity leaf text.
pub fn parse_severity(t: &str) -> (r: Option<Severity>)
    ensures
        r == spec_severity(t@),
{
    if str_eq(t, "INFO") {
        Some(Severity::Info)
    } else if str_eq(t, "WARN") {
        Some(Severity::Warn)
    } else if str_eq(t, "ERROR") {
        Some(Severity::Error)
    } else {
        None
    }
}

/// A mapping from tag names to leaf texts with unique keys; insertion
/// order is not part of its meaning.  Backs the catch-all field of an
/// aggregate.
#[derive(Clone, Debug, PartialEq, Eq)]
pub struct StringMap {
    entries: Vec<(String, String)>,
}

/// The mapping an entry list denotes: later entries shadow earlier ones.
pub open spec fn assoc_map(s: Seq<(String, String)>) -> Map<Seq<char>, Seq<char>>
    decreases s.len(),
{
    if s.len() == 0 {
        Map::empty()
    } else {
        assoc_map(s.drop_last()).insert(s.last().0@, s.last().1@)
    }
}

impl View for StringMap {
    type V = Map<Seq<char>, Seq<char>>;

    closed spec fn view(&self) -> Map<Seq<char>, Seq<char>> {
        assoc_map(self.entries@)
    }
}

impl StringMap {
    /// The empty mapping.
    pub fn new() -> (r: StringMap)
        ensures
            r@ == Map::<Seq<char>, Seq<char>>::empty(),
    {
        StringMap { entries: Vec::new() }
    }

    /// Binds `k` to `v`, shadowing any earlier binding of `k`.
    pub fn insert(&mut self, k: String, v: String)
        ensures
            final(self)@ == old(self)@.insert(k@, v@),
    {
        let ghost before = self.entries@;
        self.entries.push((k, v));
        proof {
            assert(self.entries@.drop_last() =~= before);
        }
    }

    fn get_from<'a>(&'a self, k: &str, i: usize) -> (r: Option<&'a String>)
        requires
            i <= self.entries@.len(),
        ensures
            match r {
                Some(v) => assoc_map(self.entries@.subrange(0, i as int)).contains_key(k@) && v@
                    == assoc_map(self.entries@.subrange(0, i as int))[k@],
                None => !assoc_map(self.entries@.subrange(0, i as int)).contains_key(k@),
            },
        decreases i,
{
        if i == 0 {
            proof {
                assert(self.entries@.subrange(0, 0) =~= Seq::<(String, String)>::empty());
            }
            None
        } else {
            proof {
                assert(self.entries@.subrange(0, i as int).drop_last() =~= self.entries@.subrange(
                    0,
                    i as int - 1,
                ));
                assert(self.entries@.subrange(0, i as int).last() == self.entries@[i as int - 1]);
            }
            let e = &self.entries[i - 1];
            if str_eq(e.0.as_str(), k) {
                Some(&e.1)
            } else {
                self.get_from(k, i - 1)
            }
        }
    }

    /// Looks a key up.
    pub fn get<'a>(&'a self, k: &str) -> (r: Option<&'a String>)
        ensures
            match r {
                Some(v) => self@.contains_key(k@) && v@ == self@[k@],
                None => !self@.contains_key(k@),
            },
    {
        let n = self.entries.len();
        proof {
            assert(self.entries@.subrange(0, n as int) =~= self.entries@);
        }
        self.get_from(k, n)
    }
}

/// Status aggregate `<STATUS>`.
#[derive(Clone, Debug, PartialEq, Eq)]
pub struct StatusV1 {
    pub code: i32,
    pub severity: Severity,
    pub message: String,
}

/// Signon response `<SONRS>`.
#[derive(Clone, Debug, PartialEq, Eq)]
pub struct SignonResponse {
    pub status: StatusV1,
    pub dtserver: OfxDateTime,
    pub userkey: Option<String>,
    pub tskeyexpire: Option<OfxDateTime>,
    pub language: String,
    /// Catch-all for unmatched leaf children.
    pub unknown: StringMap,
}

/// Signon message set `<SIGNONMSGSRSV1>`.
#[derive(Clone, Debug, PartialEq, Eq)]
pub struct SignonMessageSetV1 {
    pub sonrs: Option<SignonResponse>,
}

/// The root aggregate `<OFX>` of a response document.
#[derive(Clone, Debug, PartialEq, Eq)]
pub struct OfxRoot {
    pub signonmsgsrsv1: Option<SignonMessageSetV1>,
}

impl Default for OfxRoot {
    /// The empty root: every optional message set absent.
    fn default() -> (r: OfxRoot)
        ensures
            r.signonmsgsrsv1 is None,
    {
        OfxRoot { signonmsgsrsv1: None }
    }
}

/// A decoded OFX document: the validated header and the decoded root.
#[derive(Clone, Debug, PartialEq, Eq)]
pub struct Ofx {
    /// The header section of the document.
    pub header: OfxHeader,
    /// The root of the document.
    pub ofx: OfxRoot,
}

} // verus!
