use mdlinks::error::Error;
use mdlinks::extract::{
    anchor_from_answers, extract_links, find_anchors, get_link_data, link_from_anchor,
    links_from_anchors, select_anchors,
};
use mdlinks::link::{Anchor, Link};

fn link(text: &str, url: &str) -> Link {
    Link { url: url.to_string(), text: text.to_string() }
}

fn anchor(text: &str, href: Option<&str>) -> Anchor {
    Anchor { text: text.to_string(), href: href.map(|s| s.to_string()) }
}

fn some(s: &str) -> Option<String> {
    Some(s.to_string())
}

#[test]
fn answers_with_a_value_make_an_anchor_with_address() {
    assert_eq!(
        anchor_from_answers(some("Docs"), Some(Some(some("/docs")))),
        Ok(anchor("Docs", Some("/docs")))
    );
    assert_eq!(anchor_from_answers(some(""), Some(Some(some("")))), Ok(anchor("", Some(""))));
}

#[test]
fn answers_without_a_value_make_an_anchor_without_address() {
    assert_eq!(anchor_from_answers(some("Docs"), Some(None)), Ok(anchor("Docs", None)));
    assert_eq!(anchor_from_answers(some("Docs"), Some(Some(None))), Ok(anchor("Docs", None)));
}

#[test]
fn answers_on_no_element_make_no_anchor() {
    assert_eq!(anchor_from_answers(some("Docs"), None), Err(Error::NotAnElement));
    assert_eq!(anchor_from_answers(None, Some(Some(some("/docs")))), Err(Error::NotAnElement));
    assert_eq!(anchor_from_answers(None, Some(None)), Err(Error::NotAnElement));
    assert_eq!(anchor_from_answers(None, None), Err(Error::NotAnElement));
}

#[test]
fn an_anchor_with_address_is_a_link() {
    assert_eq!(link_from_anchor(&anchor("Docs", Some("/docs"))), Ok(link("Docs", "/docs")));
    assert_eq!(link_from_anchor(&anchor("", Some(""))), Ok(link("", "")));
}

#[test]
fn an_anchor_without_address_is_no_link() {
    assert_eq!(link_from_anchor(&anchor("Docs", None)), Err(Error::AttributeMissing));
}

#[test]
fn anchors_become_links_one_for_one() {
    let anchors = vec![anchor("b", Some("/2")), anchor("a", Some("/1")), anchor("b", Some("/2"))];
    assert_eq!(
        links_from_anchors(&anchors),
        Ok(vec![link("b", "/2"), link("a", "/1"), link("b", "/2")])
    );
    assert_eq!(links_from_anchors(&Vec::new()), Ok(Vec::new()));
}

#[test]
fn one_anchor_without_address_fails_the_list() {
    let anchors = vec![anchor("a", Some("/1")), anchor("b", None), anchor("c", Some("/3"))];
    assert_eq!(links_from_anchors(&anchors), Err(Error::AttributeMissing));
    assert_eq!(links_from_anchors(&vec![anchor("b", None)]), Err(Error::AttributeMissing));
}

#[test]
fn anchors_are_found_in_document_order() {
    let html = "<p>Visit <a href=\"http://example.com\">Example</a> and <a href=\"/docs\">Docs</a>.</p>";
    assert_eq!(
        find_anchors(html),
        Ok(vec![anchor("Example", Some("http://example.com")), anchor("Docs", Some("/docs"))])
    );
}

#[test]
fn an_anchor_is_found_without_its_address() {
    assert_eq!(find_anchors("<a>bare</a>"), Ok(vec![anchor("bare", None)]));
    assert_eq!(find_anchors("<a href>bare</a>"), Ok(vec![anchor("bare", None)]));
    assert_eq!(find_anchors("<a name=\"top\">bare</a>"), Ok(vec![anchor("bare", None)]));
}

#[test]
fn html_without_anchors_has_none() {
    assert_eq!(find_anchors(""), Ok(Vec::new()));
    assert_eq!(find_anchors("<h1>Title</h1>\n<p>No links here.</p>"), Ok(Vec::new()));
    assert_eq!(find_anchors("<abbr href=\"/x\">a</abbr><area href=\"/y\">"), Ok(Vec::new()));
}

#[test]
fn links_are_extracted_in_document_order() {
    let html = "<p>Visit <a href=\"http://example.com\">Example</a> and <a href=\"/docs\">Docs</a>.</p>";
    assert_eq!(
        extract_links(html),
        Ok(vec![link("Example", "http://example.com"), link("Docs", "/docs")])
    );
}

#[test]
fn links_are_neither_merged_nor_sorted() {
    let html = "<a href=\"/z\">z</a><a href=\"/a\">a</a><a href=\"/z\">z</a><a href=\"/a\">other</a>";
    assert_eq!(
        extract_links(html),
        Ok(vec![link("z", "/z"), link("a", "/a"), link("z", "/z"), link("other", "/a")])
    );
}

#[test]
fn nested_anchors_come_in_the_order_of_their_opening_tags() {
    let html = "<ul><li><a href=\"/1\">one</a><ul><li><a href=\"/2\">two</a></li></ul></li><li><a href=\"/3\">three</a></li></ul>";
    assert_eq!(
        extract_links(html),
        Ok(vec![link("one", "/1"), link("two", "/2"), link("three", "/3")])
    );
}

#[test]
fn the_text_of_a_link_is_stripped_of_tags() {
    let html = "<a href=\"/x\">a <em>b <strong>c</strong></em> d<!-- e --></a>";
    assert_eq!(extract_links(html), Ok(vec![link("a b c d", "/x")]));
}

#[test]
fn text_and_address_may_be_empty() {
    assert_eq!(extract_links("<a href=\"\"></a>"), Ok(vec![link("", "")]));
    assert_eq!(extract_links("<a href=\"/x\"><img src=\"i.png\"></a>"), Ok(vec![link("", "/x")]));
}

#[test]
fn addresses_are_kept_as_written() {
    let html = "<a href=\"../up/./x?a=1&amp;b=2#frag\">rel</a><a href='  spaced  '>q</a><a href=bare>u</a>";
    assert_eq!(
        extract_links(html),
        Ok(vec![
            link("rel", "../up/./x?a=1&amp;b=2#frag"),
            link("q", "  spaced  "),
            link("u", "bare"),
        ])
    );
}

#[test]
fn character_references_in_the_text_are_kept_as_written() {
    assert_eq!(extract_links("<a href=\"/x\">A &amp; B</a>"), Ok(vec![link("A &amp; B", "/x")]));
}

#[test]
fn an_anchor_without_href_fails_the_extraction() {
    assert_eq!(extract_links("<a>bare</a>"), Err(Error::AttributeMissing));
    assert_eq!(
        extract_links("<a href=\"/1\">one</a><a name=\"n\">two</a><a href=\"/3\">three</a>"),
        Err(Error::AttributeMissing)
    );
}

#[test]
fn an_href_without_value_fails_the_extraction() {
    assert_eq!(extract_links("<a href>bare</a>"), Err(Error::AttributeMissing));
}

#[test]
fn html_without_anchors_has_no_links() {
    assert_eq!(extract_links(""), Ok(Vec::new()));
    assert_eq!(extract_links("<h1>Title</h1>\n<p>No links here.</p>"), Ok(Vec::new()));
}

#[test]
fn a_selector_that_the_engine_cannot_parse_is_reported() {
    assert_eq!(select_anchors("<a href=\"/x\">x</a>", ""), Err(Error::SelectorRejected));
    assert_eq!(select_anchors("<a href=\"/x\">x</a>", "!"), Err(Error::SelectorRejected));
}

#[test]
fn a_selected_node_that_is_no_element_is_reported() {
    assert_eq!(select_anchors("plain text", "*"), Err(Error::NotAnElement));
    assert_eq!(select_anchors("<a href=\"/x\">x</a>", "*"), Err(Error::NotAnElement));
}

#[test]
fn other_elements_can_be_selected_and_read() {
    let html = "<p>one</p><a href=\"/x\">x</a><p href=\"/p\">two</p>";
    assert_eq!(select_anchors(html, "p"), Ok(vec![anchor("one", None), anchor("two", Some("/p"))]));
    assert_eq!(select_anchors(html, "a"), find_anchors(html));
    assert_eq!(select_anchors(html, "div"), Ok(Vec::new()));
}

#[test]
fn markdown_links_are_extracted() {
    assert_eq!(
        get_link_data("Visit [Example](http://example.com) and [Docs](/docs)."),
        Ok(vec![link("Example", "http://example.com"), link("Docs", "/docs")])
    );
}

#[test]
fn markdown_without_links_has_none() {
    assert_eq!(get_link_data("# Title\nNo links here."), Ok(Vec::new()));
    assert_eq!(get_link_data(""), Ok(Vec::new()));
}

#[test]
fn markdown_is_rendered_before_links_are_sought() {
    assert_eq!(get_link_data("`[code](/not-a-link)`"), Ok(Vec::new()));
    assert_eq!(
        get_link_data("[ref]\n\n[ref]: /target \"title\"\n"),
        Ok(vec![link("ref", "/target")])
    );
    assert_eq!(get_link_data("<https://example.com/auto>"), Ok(vec![link(
        "https://example.com/auto",
        "https://example.com/auto"
    )]));
    assert_eq!(get_link_data("[*emph* text](/e)"), Ok(vec![link("emph text", "/e")]));
}

#[test]
fn markdown_links_keep_the_order_of_the_document() {
    let text = "# [h](/0)\n\n[z](/26) then [a](/1)\n\n- [m](/13)\n  - [b](/2)\n\n> [y](/25)\n\n[z](/26)\n";
    assert_eq!(
        get_link_data(text),
        Ok(vec![
            link("h", "/0"),
            link("z", "/26"),
            link("a", "/1"),
            link("m", "/13"),
            link("b", "/2"),
            link("y", "/25"),
            link("z", "/26"),
        ])
    );
}

#[test]
fn markdown_links_beyond_ascii_are_kept() {
    assert_eq!(
        get_link_data("[Grüße 日本語](/straße#ü)"),
        Ok(vec![link("Grüße 日本語", "/stra%C3%9Fe#%C3%BC")])
    );
    assert_eq!(
        extract_links("<a href=\"/straße#ü\">Grüße 日本語</a>"),
        Ok(vec![link("Grüße 日本語", "/straße#ü")])
    );
}

#[test]
fn raw_html_in_markdown_is_no_anchor() {
    assert_eq!(get_link_data("<a name=\"x\">raw</a>"), Ok(Vec::new()));
}

#[test]
fn extraction_gives_the_same_twice() {
    let text = "- [a](/1)\n- [b](/2)\n\n[c](/3)";
    let first = get_link_data(text);
    assert_eq!(first, Ok(vec![link("a", "/1"), link("b", "/2"), link("c", "/3")]));
    assert_eq!(get_link_data(text), first);
}
