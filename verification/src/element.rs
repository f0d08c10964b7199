//! The ordered element tree of the markup body, and the recursive-descent
//! parser that builds it.
//!
//! The grammar is `element := '<' NAME '>' ( leaf-text optional-close |
//! element* close )`.  Its crux is that a leaf element's closing tag may be
//! omitted: immediately after an opening tag, if the next non-whitespace
//! characters begin another opening tag, the content is a sequence of child
//! elements and the element's own close tag is required; otherwise
//! everything up to the next `<` is the leaf's text, and one token of
//! lookahead decides whether that `<` introduces the leaf's own optional
//! close tag or belongs to a sibling or ancestor.  The parser moves
//! strictly forward and never re-reads consumed input.

use vstd::prelude::*;

use crate::error::{kind_of, parse_err, Error, ErrorKind};
use crate::text::{
    is_name_char, lemma_skip_ws_props, name_end, name_end_spec, scan_to, scan_to_spec, skip_ws,
    skip_ws_spec, str_eq, trim_spec, trim_str,
};

verus! {

broadcast use vstd::std_specs::vec::axiom_vec_index_decreases;

/// One node of the markup tree: a tag name and its content.
#[derive(Debug, PartialEq, Eq)]
pub struct Element {
    pub name: String,
    pub content: Content,
}

/// Content of an element: leaf text or an ordered sequence of children,
/// never both.
#[derive(Debug, PartialEq, Eq)]
pub enum Content {
    /// Leaf text, with surrounding whitespace trimmed.
    Leaf(String),
    /// Child elements, in document order.
    Aggregate(Vec<Element>),
}

/// The mathematical shape of an element: its name and content over
/// character sequences.
pub struct ElementModel {
    pub name: Seq<char>,
    pub content: ContentModel,
}

/// The mathematical shape of an element's content.
pub enum ContentModel {
    Leaf(Seq<char>),
    Aggregate(Seq<ElementModel>),
}

impl Element {
    /// The mathematical shape of this element.
    pub open spec fn model(self) -> ElementModel
        decreases self,
    {
        ElementModel {
            name: self.name@,
            content: match self.content {
                Content::Leaf(t) => ContentModel::Leaf(t@),
                Content::Aggregate(v) => ContentModel::Aggregate(
                    Seq::new(
                        v@.len(),
                        |i: int|
                            if 0 <= i < v@.len() {
                                v@[i].model()
                            } else {
                                vstd::pervasive::arbitrary()
                            },
                    ),
                ),
            },
        }
    }
}

/// The models of a sequence of elements, in order.
pub open spec fn models_of(v: Seq<Element>) -> Seq<ElementModel> {
    Seq::new(
        v.len(),
        |i: int|
            if 0 <= i < v.len() {
                v[i].model()
            } else {
                vstd::pervasive::arbitrary()
            },
    )
}

/// An element whose content is a vector of children models to the
/// aggregate of that vector's models.
pub proof fn lemma_aggregate_model(name: String, v: Vec<Element>)
    ensures
        (Element { name: name, content: Content::Aggregate(v) }).model() == (ElementModel {
            name: name@,
            content: ContentModel::Aggregate(models_of(v@)),
        }),
{
    let e = Element { name: name, content: Content::Aggregate(v) };
    match e.model().content {
        ContentModel::Aggregate(a) => {
            assert(a =~= models_of(v@));
        },
        ContentModel::Leaf(_) => {
            assert(false);
        },
    }
}

/// The model of an aggregate element's content is the aggregate of its
/// children's models.
pub proof fn lemma_children_model(e: &Element)
    requires
        e.content matches Content::Aggregate(_),
    ensures
        (match e.content {
            Content::Aggregate(v) => e.model().content == ContentModel::Aggregate(models_of(v@)),
            Content::Leaf(_) => false,
        }),
{
    match e.content {
        Content::Aggregate(v) => {
            match e.model().content {
                ContentModel::Aggregate(a) => {
                    assert(a =~= models_of(v@));
                },
                ContentModel::Leaf(_) => {
                    assert(false);
                },
            }
        },
        Content::Leaf(_) => {
            assert(false);
        },
    }
}

/// Outcome of parsing one element.
pub enum ElemStep {
    /// The element's model and the position just past it.
    Done(ElementModel, int),
    /// A structural error: stray text among children, a close tag naming
    /// the wrong element, a malformed tag.
    Fail,
    /// The input ended while a required construct was still open.
    Short,
}

/// Outcome of parsing a run of children up to the enclosing close tag.
pub enum KidsStep {
    /// The children's models and the position just past the close tag.
    Done(Seq<ElementModel>, int),
    Fail,
    Short,
}

/// Parses one element starting at `pos` (leading whitespace allowed).
///
/// The bound guards (`if !(..) { Fail }`) only discharge the termination
/// measure; every scan they constrain stays within bounds, so those
/// branches are never taken.
pub open spec fn spec_element(s: Seq<char>, pos: int) -> ElemStep
    decreases s.len() - pos, 0int,
{
    let p0 = skip_ws_spec(s, pos);
    if !(0 <= pos && pos <= p0 && p0 <= s.len()) {
        ElemStep::Fail
    } else if p0 >= s.len() {
        ElemStep::Short
    } else if s[p0] != '<' {
        ElemStep::Fail
    } else {
        let ns = p0 + 1;
        let ne = name_end_spec(s, ns);
        if !(ns <= ne && ne <= s.len()) {
            ElemStep::Fail
        } else if ne == ns {
            ElemStep::Fail
        } else if ne >= s.len() {
            ElemStep::Short
        } else if s[ne] != '>' {
            ElemStep::Fail
        } else {
            let name = s.subrange(ns, ne);
            let p1 = ne + 1;
            let pw = skip_ws_spec(s, p1);
            if p1 <= pw && pw + 1 < s.len() && s[pw] == '<' && is_name_char(s[pw + 1]) {
                match spec_children(s, p1, name) {
                    KidsStep::Done(kids, p2) => ElemStep::Done(
                        ElementModel { name: name, content: ContentModel::Aggregate(kids) },
                        p2,
                    ),
                    KidsStep::Fail => ElemStep::Fail,
                    KidsStep::Short => ElemStep::Short,
                }
            } else {
                let te = scan_to_spec(s, p1, '<');
                if !(p1 <= te && te <= s.len()) {
                    ElemStep::Fail
                } else {
                    let leaf = ElementModel {
                        name: name,
                        content: ContentModel::Leaf(trim_spec(s.subrange(p1, te))),
                    };
                    if te + 1 < s.len() && s[te] == '<' && s[te + 1] == '/' {
                        let cs = te + 2;
                        let ce = name_end_spec(s, cs);
                        if !(cs <= ce && ce <= s.len()) {
                            ElemStep::Fail
                        } else if ce >= s.len() {
                            ElemStep::Short
                        } else if ce == cs {
                            ElemStep::Fail
                        } else if s[ce] != '>' {
                            ElemStep::Fail
                        } else if s.subrange(cs, ce) == name {
                            ElemStep::Done(leaf, ce + 1)
                        } else {
                            ElemStep::Done(leaf, te)
                        }
                    } else {
                        ElemStep::Done(leaf, te)
                    }
                }
            }
        }
    }
}

/// Parses child elements of the element named `name` until its close tag.
/// Stray non-whitespace text among children, or a close tag naming any
/// other element, is a structural error; end of input before the close tag
/// is parse-incomplete.
pub open spec fn spec_children(s: Seq<char>, pos: int, name: Seq<char>) -> KidsStep
    decreases s.len() - pos, 1int,
{
    let pw = skip_ws_spec(s, pos);
    if !(0 <= pos && pos <= pw && pw <= s.len()) {
        KidsStep::Fail
    } else if pw >= s.len() {
        KidsStep::Short
    } else if s[pw] != '<' {
        KidsStep::Fail
    } else if pw + 1 >= s.len() {
        KidsStep::Short
    } else if s[pw + 1] == '/' {
        let cs = pw + 2;
        let ce = name_end_spec(s, cs);
        if !(cs <= ce && ce <= s.len()) {
            KidsStep::Fail
        } else if ce >= s.len() {
            KidsStep::Short
        } else if ce == cs {
            KidsStep::Fail
        } else if s[ce] != '>' {
            KidsStep::Fail
        } else if s.subrange(cs, ce) == name {
            KidsStep::Done(Seq::empty(), ce + 1)
        } else {
            KidsStep::Fail
        }
    } else {
        match spec_element(s, pw) {
            ElemStep::Done(child, p2) => if !(pw < p2 && p2 <= s.len()) {
                KidsStep::Fail
            } else {
                match spec_children(s, p2, name) {
                    KidsStep::Done(kids, p3) => KidsStep::Done(seq![child] + kids, p3),
                    KidsStep::Fail => KidsStep::Fail,
                    KidsStep::Short => KidsStep::Short,
                }
            },
            ElemStep::Fail => KidsStep::Fail,
            ElemStep::Short => KidsStep::Short,
        }
    }
}

/// The single-token-lookahead rule that resolves the format's central
/// ambiguity: whenever an element parses, its content is a sequence of
/// children exactly when the next non-whitespace characters after its
/// opening tag begin another opening tag, and leaf text otherwise —
/// regardless of whether a close tag later appears.
pub proof fn lemma_lookahead_decides_content(s: Seq<char>, pos: int, m: ElementModel, p: int)
    requires
        spec_element(s, pos) == ElemStep::Done(m, p),
    ensures
        ({
            let p0 = skip_ws_spec(s, pos);
            let p1 = name_end_spec(s, p0 + 1) + 1;
            let pw = skip_ws_spec(s, p1);
            if pw + 1 < s.len() && s[pw] == '<' && is_name_char(s[pw + 1]) {
                m.content is Aggregate
            } else {
                m.content is Leaf
            }
        }),
{
    let p0 = skip_ws_spec(s, pos);
    let p1 = name_end_spec(s, p0 + 1) + 1;
    lemma_skip_ws_props(s, p1);
}

fn is_name_char_at(s: &str, i: usize) -> (b: bool)
    requires
        i < s@.len(),
    ensures
        b == is_name_char(s@[i as int]),
{
    let c = s.get_char(i);
    !(c == '<' || c == '>' || c == '/' || c == ' ' || c == '\t' || c == '\r' || c == '\n')
}

/// Parses one element of the markup body starting at `pos`.
#[verifier::rlimit(100)]
pub fn parse_element(s: &str, pos: usize) -> (r: Result<(Element, usize), Error>)
    requires
        pos <= s@.len(),
    ensures
        match spec_element(s@, pos as int) {
            ElemStep::Done(m, p) => r matches Ok((e, q)) && e.model() == m && q == p && pos < q
                <= s@.len(),
            ElemStep::Fail => r matches Err(e) && kind_of(e) == ErrorKind::ParseError,
            ElemStep::Short => r matches Err(e) && e == Error::ParseIncomplete,
        },
    decreases s@.len() - pos, 0int,
{
    let n = s.unicode_len();
    let p0 = skip_ws(s, pos);
    if p0 >= n {
        return Err(Error::ParseIncomplete);
    }
    if s.get_char(p0) != '<' {
        return Err(parse_err("opening tag expected"));
    }
    let ns = p0 + 1;
    let ne = name_end(s, ns);
    if ne == ns {
        return Err(parse_err("tag name expected"));
    }
    if ne >= n {
        return Err(Error::ParseIncomplete);
    }
    if s.get_char(ne) != '>' {
        return Err(parse_err("unterminated tag name"));
    }
    let name_str = s.substring_char(ns, ne);
    let name = String::from_str(name_str);
    let p1 = ne + 1;
    let pw = skip_ws(s, p1);
    if pw < n && pw + 1 < n && s.get_char(pw) == '<' && is_name_char_at(s, pw + 1) {
        match parse_children(s, p1, name_str) {
            Ok((kids, p2)) => {
                proof {
                    lemma_aggregate_model(name, kids);
                }
                Ok((Element { name: name, content: Content::Aggregate(kids) }, p2))
            },
            Err(e) => Err(e),
        }
    } else {
        let te = scan_to(s, p1, '<');
        let text = trim_str(s.substring_char(p1, te));
        let leaf = Element { name: name, content: Content::Leaf(text) };
        if te < n && te + 1 < n && s.get_char(te) == '<' && s.get_char(te + 1) == '/' {
            let cs = te + 2;
            let ce = name_end(s, cs);
            if ce >= n {
                return Err(Error::ParseIncomplete);
            }
            if ce == cs {
                return Err(parse_err("close tag name expected"));
            }
            if s.get_char(ce) != '>' {
                return Err(parse_err("unterminated close tag"));
            }
            let close_name = s.substring_char(cs, ce);
            if str_eq(close_name, name_str) {
                Ok((leaf, ce + 1))
            } else {
                Ok((leaf, te))
            }
        } else {
            Ok((leaf, te))
        }
    }
}

/// Parses the children of the element named `name`, consuming its close
/// tag.
#[verifier::rlimit(100)]
pub fn parse_children(s: &str, pos: usize, name: &str) -> (r: Result<(Vec<Element>, usize), Error>)
    requires
        pos <= s@.len(),
    ensures
        match spec_children(s@, pos as int, name@) {
            KidsStep::Done(ms, p) => r matches Ok((v, q)) && models_of(v@) == ms && q == p && pos
                < q <= s@.len(),
            KidsStep::Fail => r matches Err(e) && kind_of(e) == ErrorKind::ParseError,
            KidsStep::Short => r matches Err(e) && e == Error::ParseIncomplete,
        },
    decreases s@.len() - pos, 1int,
{
    let n = s.unicode_len();
    let pw = skip_ws(s, pos);
    if pw >= n {
        return Err(Error::ParseIncomplete);
    }
    if s.get_char(pw) != '<' {
        return Err(parse_err("stray text among child elements"));
    }
    if pw + 1 >= n {
        return Err(Error::ParseIncomplete);
    }
    if s.get_char(pw + 1) == '/' {
        let cs = pw + 2;
        let ce = name_end(s, cs);
        if ce >= n {
            return Err(Error::ParseIncomplete);
        }
        if ce == cs {
            return Err(parse_err("close tag name expected"));
        }
        if s.get_char(ce) != '>' {
            return Err(parse_err("unterminated close tag"));
        }
        let close_name = s.substring_char(cs, ce);
        if str_eq(close_name, name) {
            let v: Vec<Element> = Vec::new();
            proof {
                assert(models_of(v@) =~= Seq::<ElementModel>::empty());
            }
            Ok((v, ce + 1))
        } else {
            Err(parse_err("close tag does not match the open element"))
        }
    } else {
        let (child, p2) = match parse_element(s, pw) {
            Ok(x) => x,
            Err(e) => {
                return Err(e);
            },
        };
        let (mut kids, p3) = match parse_children(s, p2, name) {
            Ok(x) => x,
            Err(e) => {
                return Err(e);
            },
        };
        let ghost old_kids = kids@;
        kids.insert(0, child);
        proof {
            assert(models_of(kids@) =~= seq![child.model()] + models_of(old_kids));
        }
        Ok((kids, p3))
    }
}

} // verus!
