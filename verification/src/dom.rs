//! The HTML engine: `tl` parses the document and answers what is asked of
//! the tree.
//!
//! Nothing in this file is proved. A tree is opaque here; it is only ever
//! made by `parse_html`, and never changed afterwards. So what the engine
//! answers on a tree depends on the text alone that the tree was parsed from,
//! and each answer is given a name as a function of that text. The names say
//! nothing of what the answers are: that is the engine's business.

use vstd::prelude::*;

verus! {

#[verifier::external_type_specification]
#[verifier::external_body]
pub struct ExVDom<'a>(tl::VDom<'a>);

#[verifier::external_type_specification]
#[verifier::external_body]
pub struct ExParseError(tl::ParseError);

/// The text that a tree holds: the one that it was parsed from, and borrows.
pub uninterp spec fn dom_source(dom: tl::VDom) -> Seq<char>;

/// The handles of the nodes of `html` that `selector` matches, in the order
/// in which the iterator of `tl::VDom::query_selector` yields them: that of
/// the engine's table of nodes, which it fills as it reads the text. `None`
/// where the engine cannot parse the selector.
pub uninterp spec fn html_select(html: Seq<char>, selector: Seq<char>) -> Option<Seq<u32>>;

/// What `tl::Node::inner_text` gives for the node of `html` under the handle
/// `node`: the text of the node and of all that is nested in it, tags and
/// comments left out, character references left as they are written. `None`
/// where the handle names no node.
pub uninterp spec fn html_inner_text(html: Seq<char>, node: u32) -> Option<Seq<char>>;

/// What `tl::Attributes::get` gives for the attribute `name` of the node of
/// `html` under the handle `node`. `None` where the handle names no element;
/// `Some(None)` where the element has no such attribute; `Some(Some(None))`
/// where it has the attribute without a value; else the value as it is
/// written.
pub uninterp spec fn html_attribute(html: Seq<char>, node: u32, name: Seq<char>) -> Option<
    Option<Option<Seq<char>>>,
>;

/// Calls `tl::parse` with the default options. The engine refuses a text of
/// more than `u32::MAX` bytes, which is its only error, and takes every
/// other text, well-formed HTML or not. The tree borrows the text.
#[verifier::external_body]
pub(crate) fn parse_html<'a>(html: &'a str) -> (r: Result<tl::VDom<'a>, tl::ParseError>)
    ensures
        r is Ok <==> vstd::utf8::encode_utf8(html@).len() <= u32::MAX,
        r matches Ok(dom) ==> dom_source(dom) == html@,
{
    tl::parse(html, tl::ParserOptions::default())
}

/// Calls `tl::VDom::query_selector` and collects the handles that its
/// iterator yields, each as the number that it wraps. What comes back is a
/// function of the text of the tree and of the selector.
#[verifier::external_body]
pub(crate) fn query_selector(dom: &tl::VDom<'_>, selector: &str) -> (r: Option<Vec<u32>>)
    ensures
        r.deep_view() == html_select(dom_source(*dom), selector@),
{
    dom.query_selector(selector).map(|found| found.map(|handle| handle.get_inner()).collect())
}

/// Resolves the handle with `tl::NodeHandle::get` and calls
/// `tl::Node::inner_text` on the node. What comes back is a function of the
/// text of the tree and of the handle. The engine reads what is nested in an
/// element by calling itself, so the depth to which it can read is that
/// which the stack allows.
#[verifier::external_body]
pub(crate) fn inner_text(dom: &tl::VDom<'_>, node: u32) -> (r: Option<String>)
    ensures
        r.deep_view() == html_inner_text(dom_source(*dom), node),
{
    let parser = dom.parser();
    tl::NodeHandle::new(node).get(parser).map(|found| found.inner_text(parser).into_owned())
}

/// Resolves the handle with `tl::NodeHandle::get`, takes the node as an
/// element with `tl::Node::as_tag`, and looks the attribute up with
/// `tl::Attributes::get`; a value is made a string by
/// `tl::Bytes::as_utf8_str`. What comes back is a function of the text of the
/// tree, of the handle and of the attribute's name.
#[verifier::external_body]
pub(crate) fn attribute<'a>(dom: &tl::VDom<'a>, node: u32, name: &'a str) -> (r: Option<
    Option<Option<String>>,
>)
    ensures
        r.deep_view() == html_attribute(dom_source(*dom), node, name@),
{
    let element = tl::NodeHandle::new(node).get(dom.parser()).and_then(|found| found.as_tag());
    element.map(
        |tag| tag.attributes().get(name).map(|v| v.map(|bytes| bytes.as_utf8_str().into_owned())),
    )
}

} // verus!
