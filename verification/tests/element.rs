use ofx_parse::element::{parse_element, Content, Element};
use ofx_parse::error::Error;

fn leaf(e: &Element) -> &str {
    match &e.content {
        Content::Leaf(t) => t.as_str(),
        Content::Aggregate(_) => panic!("expected a leaf"),
    }
}

fn children(e: &Element) -> &Vec<Element> {
    match &e.content {
        Content::Aggregate(v) => v,
        Content::Leaf(_) => panic!("expected an aggregate"),
    }
}

#[test]
fn open_tag_followed_by_open_tag_is_an_aggregate() {
    let (e, _) = parse_element("<A><B>x</B></A>", 0).unwrap();
    assert_eq!(e.name.as_str(), "A");
    let kids = children(&e);
    assert_eq!(kids.len(), 1);
    assert_eq!(kids[0].name.as_str(), "B");
    assert_eq!(leaf(&kids[0]), "x");
}

#[test]
fn open_tag_followed_by_text_is_a_leaf() {
    let (e, rest) = parse_element("<A>hello", 0).unwrap();
    assert_eq!(e.name.as_str(), "A");
    assert_eq!(leaf(&e), "hello");
    assert_eq!(rest, 8);
}

#[test]
fn leaf_with_close_tag_consumes_it() {
    let (e, rest) = parse_element("<A>hello</A>", 0).unwrap();
    assert_eq!(leaf(&e), "hello");
    assert_eq!(rest, 12);
}

#[test]
fn leaf_text_is_trimmed() {
    let (e, _) = parse_element("<A>  hello \n</A>", 0).unwrap();
    assert_eq!(leaf(&e), "hello");
}

#[test]
fn leaf_followed_by_sibling_leaves_the_sibling() {
    let (e, rest) = parse_element("<A>x<B>y", 0).unwrap();
    assert_eq!(e.name.as_str(), "A");
    assert_eq!(leaf(&e), "x");
    assert_eq!(rest, 4);
}

#[test]
fn empty_element_is_a_leaf_with_empty_text() {
    let (e, rest) = parse_element("<A></A>", 0).unwrap();
    assert_eq!(leaf(&e), "");
    assert_eq!(rest, 7);
}

#[test]
fn optional_close_tags_may_be_omitted_for_leaves() {
    let (e, _) = parse_element("<R>\n<A>1\n<B>2\n</R>", 0).unwrap();
    let kids = children(&e);
    assert_eq!(kids.len(), 2);
    assert_eq!(leaf(&kids[0]), "1");
    assert_eq!(leaf(&kids[1]), "2");
}

#[test]
fn ancestor_close_ends_a_leaf_without_being_consumed() {
    let (e, _) = parse_element("<R><A>1</R>", 0).unwrap();
    let kids = children(&e);
    assert_eq!(kids.len(), 1);
    assert_eq!(leaf(&kids[0]), "1");
}

#[test]
fn mismatched_close_tag_is_a_parse_error() {
    assert!(matches!(parse_element("<R><A><B>x</B></X></R>", 0), Err(Error::ParseError(_))));
}

#[test]
fn missing_close_tag_is_incomplete() {
    assert_eq!(parse_element("<R><A>1\n", 0), Err(Error::ParseIncomplete));
}

#[test]
fn unterminated_open_tag_is_incomplete() {
    assert_eq!(parse_element("<ABC", 0), Err(Error::ParseIncomplete));
}

#[test]
fn missing_tag_is_a_parse_error() {
    assert!(matches!(parse_element("plain text", 0), Err(Error::ParseError(_))));
}

#[test]
fn empty_input_is_incomplete() {
    assert_eq!(parse_element("", 0), Err(Error::ParseIncomplete));
}

#[test]
fn nested_aggregates_parse() {
    let (e, _) = parse_element("<R><S><A>1</S><T><B>2</T></R>", 0).unwrap();
    let kids = children(&e);
    assert_eq!(kids.len(), 2);
    assert_eq!(kids[0].name.as_str(), "S");
    assert_eq!(kids[1].name.as_str(), "T");
    assert_eq!(leaf(&children(&kids[0])[0]), "1");
}

#[test]
fn tag_names_may_hold_dots() {
    let (e, _) = parse_element("<INTU.BID>00015", 0).unwrap();
    assert_eq!(e.name.as_str(), "INTU.BID");
    assert_eq!(leaf(&e), "00015");
}
