//! The extractor: from the document to the ordered list of its links.

use crate::dom::{
    attribute, dom_source, html_attribute, html_inner_text, html_select, inner_text, parse_html,
    query_selector,
};
use crate::error::{result_view, Error};
use crate::link::{Anchor, AnchorView, Link, LinkView};
use crate::render::{markdown_html, to_html};
use vstd::prelude::*;

verus! {

/// The selector that matches the anchor elements, by their tag name.
pub open spec fn anchor_selector() -> Seq<char> {
    "a"@
}

/// The attribute that holds an anchor's address.
pub open spec fn address_attribute() -> Seq<char> {
    "href"@
}

/// The anchor that two answers of the engine on one node make up: its inner
/// text and its address. An address is there only where the attribute is and
/// has a value. Where the engine found no element to answer for, there is no
/// anchor.
pub open spec fn anchor_of_answers(
    text: Option<Seq<char>>,
    address: Option<Option<Option<Seq<char>>>>,
) -> Result<AnchorView, Error> {
    match (text, address) {
        (Some(text), Some(Some(Some(url)))) => Ok(AnchorView { text, href: Some(url) }),
        (Some(text), Some(_)) => Ok(AnchorView { text, href: None }),
        _ => Err(Error::NotAnElement),
    }
}

/// The anchor under the handle `node` in `html`.
pub open spec fn anchor_at(html: Seq<char>, node: u32) -> Result<AnchorView, Error> {
    anchor_of_answers(
        html_inner_text(html, node),
        html_attribute(html, node, address_attribute()),
    )
}

/// The anchors under the handles `nodes`, in the order of the handles; the
/// failure to read one of them fails the whole.
pub open spec fn anchors_at(html: Seq<char>, nodes: Seq<u32>) -> Result<Seq<AnchorView>, Error> {
    if forall|i: int| 0 <= i < nodes.len() ==> (#[trigger] anchor_at(html, nodes[i])) is Ok {
        Ok(Seq::new(nodes.len(), |i: int| anchor_at(html, nodes[i])->Ok_0))
    } else {
        Err(Error::NotAnElement)
    }
}

/// The nodes of an HTML text that a selector matches, each read as an
/// anchor, in the order of the document.
pub open spec fn selected_anchors(html: Seq<char>, selector: Seq<char>) -> Result<
    Seq<AnchorView>,
    Error,
> {
    if vstd::utf8::encode_utf8(html).len() > u32::MAX {
        Err(Error::DocumentTooLarge)
    } else {
        match html_select(html, selector) {
            None => Err(Error::SelectorRejected),
            Some(nodes) => anchors_at(html, nodes),
        }
    }
}

/// The anchors of an HTML text, in the order of the document.
pub open spec fn html_anchors(html: Seq<char>) -> Result<Seq<AnchorView>, Error> {
    selected_anchors(html, anchor_selector())
}

/// The link that an anchor stands for: it needs an address.
pub open spec fn link_of_anchor(anchor: AnchorView) -> Result<LinkView, Error> {
    match anchor.href {
        Some(url) => Ok(LinkView { url, text: anchor.text }),
        None => Err(Error::AttributeMissing),
    }
}

/// The links that the anchors stand for, one for one and in their order.
/// Nothing is left out, merged or sorted; one anchor without an address
/// fails the whole.
pub open spec fn links_of_anchors(anchors: Seq<AnchorView>) -> Result<Seq<LinkView>, Error> {
    if forall|i: int| 0 <= i < anchors.len() ==> (#[trigger] link_of_anchor(anchors[i])) is Ok {
        Ok(Seq::new(anchors.len(), |i: int| link_of_anchor(anchors[i])->Ok_0))
    } else {
        Err(Error::AttributeMissing)
    }
}

/// The links of an HTML text.
pub open spec fn html_links(html: Seq<char>) -> Result<Seq<LinkView>, Error> {
    match html_anchors(html) {
        Ok(anchors) => links_of_anchors(anchors),
        Err(e) => Err(e),
    }
}

/// The links of a Markdown text: those of the HTML that it renders to.
pub open spec fn document_links(text: Seq<char>) -> Result<Seq<LinkView>, Error> {
    html_links(markdown_html(text))
}

/// Makes an anchor of what the engine answered on one node.
pub fn anchor_from_answers(text: Option<String>, address: Option<Option<Option<String>>>) -> (r:
    Result<Anchor, Error>)
    ensures
        result_view(r) == anchor_of_answers(text.deep_view(), address.deep_view()),
{
    match (text, address) {
        (Some(text), Some(Some(Some(url)))) => Ok(Anchor { text, href: Some(url) }),
        (Some(text), Some(_)) => Ok(Anchor { text, href: None }),
        _ => Err(Error::NotAnElement),
    }
}

/// Reads as an anchor each node of an HTML text that a selector matches:
/// its text and its address, in the order of the document. The engine judges
/// the selector; a node that is no element has no address to look for, and
/// fails the whole.
pub fn select_anchors(html: &str, selector: &str) -> (r: Result<Vec<Anchor>, Error>)
    ensures
        result_view(r) == selected_anchors(html@, selector@),
{
    let dom = match parse_html(html) {
        Ok(dom) => dom,
        Err(_) => {
            return Err(Error::DocumentTooLarge);
        },
    };
    let nodes = match query_selector(&dom, selector) {
        Some(nodes) => nodes,
        None => {
            return Err(Error::SelectorRejected);
        },
    };
    let mut anchors: Vec<Anchor> = Vec::new();
    let mut i: usize = 0;
    while i < nodes.len()
        invariant
            i <= nodes.len(),
            dom_source(dom) == html@,
            vstd::utf8::encode_utf8(html@).len() <= u32::MAX,
            html_select(html@, selector@) == Some(nodes@),
            anchors.len() == i,
            forall|k: int|
                0 <= k < i ==> #[trigger] anchor_at(html@, nodes@[k]) == Ok::<AnchorView, Error>(
                    anchors.deep_view()[k],
                ),
        decreases nodes.len() - i,
    {
        let text = inner_text(&dom, nodes[i]);
        let address = attribute(&dom, nodes[i], "href");
        match anchor_from_answers(text, address) {
            Ok(anchor) => {
                anchors.push(anchor);
            },
            Err(e) => {
                assert(anchor_at(html@, nodes@[i as int]) is Err);
                return Err(e);
            },
        }
        i += 1;
    }
    assert(anchors.deep_view() =~= anchors_at(html@, nodes@)->Ok_0);
    Ok(anchors)
}

/// Finds the anchor elements of an HTML text and reads the text and the
/// address of each, in the order of the document.
pub fn find_anchors(html: &str) -> (r: Result<Vec<Anchor>, Error>)
    ensures
        result_view(r) == html_anchors(html@),
{
    select_anchors(html, "a")
}

/// Makes a link of an anchor that has an address.
pub fn link_from_anchor(anchor: &Anchor) -> (r: Result<Link, Error>)
    ensures
        result_view(r) == link_of_anchor(anchor@),
{
    match &anchor.href {
        Some(url) => Ok(Link { url: url.clone(), text: anchor.text.clone() }),
        None => Err(Error::AttributeMissing),
    }
}

/// Makes the list of links of a list of anchors: as many, in the same order.
pub fn links_from_anchors(anchors: &Vec<Anchor>) -> (r: Result<Vec<Link>, Error>)
    ensures
        result_view(r) == links_of_anchors(anchors.deep_view()),
{
    let mut links: Vec<Link> = Vec::new();
    let mut i: usize = 0;
    while i < anchors.len()
        invariant
            i <= anchors.len(),
            links.len() == i,
            forall|k: int|
                0 <= k < i ==> #[trigger] link_of_anchor(anchors.deep_view()[k]) == Ok::<
                    LinkView,
                    Error,
                >(links.deep_view()[k]),
        decreases anchors.len() - i,
    {
        match link_from_anchor(&anchors[i]) {
            Ok(link) => {
                links.push(link);
            },
            Err(e) => {
                assert(link_of_anchor(anchors.deep_view()[i as int]) is Err);
                return Err(e);
            },
        }
        i += 1;
    }
    assert(links.deep_view() =~= links_of_anchors(anchors.deep_view())->Ok_0);
    Ok(links)
}

/// Extracts the links of an HTML text: one for each anchor element, in the
/// order of the document.
pub fn extract_links(html: &str) -> (r: Result<Vec<Link>, Error>)
    ensures
        result_view(r) == html_links(html@),
{
    match find_anchors(html) {
        Ok(anchors) => links_from_anchors(&anchors),
        Err(e) => Err(e),
    }
}

/// Renders a Markdown text to HTML and extracts the links of the result.
pub fn get_link_data(text: &str) -> (r: Result<Vec<Link>, Error>)
    ensures
        result_view(r) == document_links(text@),
{
    let html = to_html(text);
    extract_links(html.as_str())
}

} // verus!
