//! The appender's text: the list of links as it is written after the
//! document.

use crate::extract::links_of_anchors;
use crate::link::{AnchorView, Link, LinkView};
use vstd::prelude::*;

verus! {

/// What opens the list: an empty line, then the heading on a line of its
/// own.
pub open spec fn heading() -> Seq<char> {
    "\n**Links**\n"@
}

/// One link as an item of a Markdown list. The line break stands before the
/// item, not after it: the list ends without one.
pub open spec fn item(link: LinkView) -> Seq<char> {
    "\n- ["@ + link.text + "]("@ + link.url + ")"@
}

/// The items of the links, one after the other.
pub open spec fn items(links: Seq<LinkView>) -> Seq<char>
    decreases links.len(),
{
    if links.len() == 0 {
        Seq::empty()
    } else {
        items(links.drop_last()) + item(links.last())
    }
}

/// The heading, then the items.
pub open spec fn listing(links: Seq<LinkView>) -> Seq<char> {
    heading() + items(links)
}

/// What a run appends to the document: the listing of its links, and
/// nothing at all where it has none.
pub open spec fn section(links: Seq<LinkView>) -> Option<Seq<char>> {
    if links.len() == 0 {
        None
    } else {
        Some(listing(links))
    }
}

/// Where the item of the link at `index` begins in the listing.
pub open spec fn item_start(links: Seq<LinkView>, index: int) -> int {
    (heading().len() + items(links.take(index)).len()) as int
}

/// The items of a list that was put together of two are those of the first,
/// then those of the second.
pub proof fn lemma_items_concat(first: Seq<LinkView>, second: Seq<LinkView>)
    ensures
        items(first + second) == items(first) + items(second),
    decreases second.len(),
{
    if second.len() > 0 {
        lemma_items_concat(first, second.drop_last());
        assert((first + second).drop_last() =~= first + second.drop_last());
    }
}

/// The items of the first `index + 1` links are those of the first `index`,
/// then the item of the link at `index`.
pub proof fn lemma_items_step(links: Seq<LinkView>, index: int)
    requires
        0 <= index < links.len(),
    ensures
        items(links.take(index + 1)) == items(links.take(index)) + item(links[index]),
{
    assert(links.take(index + 1).drop_last() =~= links.take(index));
}

/// Every link is in the listing, as its own item and whole: the text from
/// `item_start` on is the item of that link.
pub proof fn lemma_item_in_place(links: Seq<LinkView>, index: int)
    requires
        0 <= index < links.len(),
    ensures
        0 <= item_start(links, index),
        item_start(links, index) + item(links[index]).len() <= listing(links).len(),
        listing(links).subrange(
            item_start(links, index),
            item_start(links, index) + item(links[index]).len(),
        ) == item(links[index]),
{
    let after = links.skip(index + 1);
    lemma_items_step(links, index);
    lemma_items_concat(links.take(index + 1), after);
    assert(links.take(index + 1) + after =~= links);
}

/// The items stand in the order of the links: the item of an earlier link
/// ends before the item of a later link begins.
pub proof fn lemma_items_in_order(links: Seq<LinkView>, earlier: int, later: int)
    requires
        0 <= earlier < later < links.len(),
    ensures
        item_start(links, earlier) + item(links[earlier]).len() <= item_start(links, later),
{
    let upto = links.take(later);
    lemma_items_step(links, earlier);
    lemma_items_concat(links.take(earlier + 1), upto.skip(earlier + 1));
    assert(links.take(earlier + 1) + upto.skip(earlier + 1) =~= upto);
}

/// The listing keeps the order of the document: where every anchor has an
/// address, there are as many links as anchors, the link at each place holds
/// the text and the address of the anchor at that place, and its item stands
/// at that place in the listing.
pub proof fn lemma_items_follow_anchors(anchors: Seq<AnchorView>, index: int)
    requires
        links_of_anchors(anchors) is Ok,
        0 <= index < anchors.len(),
    ensures
        ({
            let links = links_of_anchors(anchors)->Ok_0;
            &&& links.len() == anchors.len()
            &&& anchors[index].href == Some(links[index].url)
            &&& anchors[index].text == links[index].text
            &&& listing(links).subrange(
                item_start(links, index),
                item_start(links, index) + item(links[index]).len(),
            ) == item(links[index])
        }),
{
    let links = links_of_anchors(anchors)->Ok_0;
    lemma_item_in_place(links, index);
}

/// The heading that opens the list.
pub fn links_heading() -> (text: String)
    ensures
        text@ == heading(),
{
    "\n**Links**\n".to_owned()
}

/// Formats one link as an item of the list.
pub fn format_link(link: &Link) -> (line: String)
    ensures
        line@ == item(link@),
{
    let mut line = "\n- [".to_owned();
    line.append(link.text.as_str());
    line.append("](");
    line.append(link.url.as_str());
    line.append(")");
    line
}

/// Formats the whole list: the heading, then one item for each link, in the
/// order of the links.
pub fn format_links(links: &Vec<Link>) -> (text: String)
    ensures
        text@ == listing(links.deep_view()),
{
    let mut text = links_heading();
    let mut i: usize = 0;
    while i < links.len()
        invariant
            i <= links.len(),
            text@ == heading() + items(links.deep_view().take(i as int)),
        decreases links.len() - i,
    {
        let line = format_link(&links[i]);
        text.append(line.as_str());
        proof {
            lemma_items_step(links.deep_view(), i as int);
        }
        i += 1;
    }
    assert(links.deep_view().take(links.len() as int) =~= links.deep_view());
    text
}

/// What is to be appended to the document that holds these links: `None`
/// where there are none, and the file is then left as it is.
pub fn links_section(links: &Vec<Link>) -> (text: Option<String>)
    ensures
        text.deep_view() == section(links.deep_view()),
{
    if links.len() == 0 {
        None
    } else {
        Some(format_links(links))
    }
}

} // verus!
