use mdlinks::error::Error;
use mdlinks::extract::{extract_links, get_link_data, select_anchors};
use mdlinks::listing::format_links;

/// A small generator of numbers, the same on every run.
struct Numbers(u64);

impl Numbers {
    fn next(&mut self, below: usize) -> usize {
        self.0 = self.0.wrapping_mul(6364136223846793005).wrapping_add(1442695040888963407);
        ((self.0 >> 33) as usize) % below
    }
}

fn text_of(pieces: &[&str], numbers: &mut Numbers, longest: usize) -> String {
    let mut text = String::new();
    for _ in 0..numbers.next(longest + 1) {
        text.push_str(pieces[numbers.next(pieces.len())]);
    }
    text
}

const HTML: [&str; 28] = [
    "<", ">", "/", "a", "A", " ", "=", "\"", "'", "!", "-", "--", "href", "id", "class", "<a", "</a>",
    "<a href=\"", "<!--", "-->", "<!doctype ", "\n", "é", "日", "&amp;", "<br>", "p", "x",
];

const MARKDOWN: [&str; 30] = [
    "[", "]", "(", ")", "<", ">", "!", "*", "_", "`", "#", " ", "\n", "\n\n", "- ", "> ", "1. ", "\\",
    ":", "/", "http://", "a", "b", "é", "日", "\"", "'", "&", "    ", "\t",
];

#[test]
fn the_engine_reads_whatever_it_is_given() {
    let mut numbers = Numbers(7);
    for _ in 0..20000 {
        let html = text_of(&HTML, &mut numbers, 40);
        match extract_links(&html) {
            Ok(_) | Err(Error::AttributeMissing) => {}
            other => panic!("{:?} on {:?}", other, html),
        }
        match select_anchors(&html, "*") {
            Ok(_) | Err(Error::NotAnElement) => {}
            other => panic!("{:?} on {:?}", other, html),
        }
    }
}

#[test]
fn the_engine_judges_whatever_selector_it_is_given() {
    let pieces = ["a", "p", "#", ".", "*", "[", "]", "=", "~", "^", "$", ",", ">", " ", "\"", "'", "é", "!"];
    let html = "<p id=\"a\" class=\"a p\">x<a href=\"/1\" a=\"a\">one</a><!-- c --></p><a>two</a>";
    let mut numbers = Numbers(11);
    for _ in 0..20000 {
        let selector = text_of(&pieces, &mut numbers, 12);
        match select_anchors(html, &selector) {
            Ok(_) | Err(Error::SelectorRejected) | Err(Error::NotAnElement) => {}
            other => panic!("{:?} on {:?}", other, selector),
        }
    }
}

#[test]
fn the_renderer_reads_whatever_it_is_given() {
    let mut numbers = Numbers(13);
    for _ in 0..8000 {
        let text = text_of(&MARKDOWN, &mut numbers, 60);
        match get_link_data(&text) {
            Ok(links) => {
                let listing = format_links(&links);
                assert!(listing.starts_with("\n**Links**\n"));
                assert_eq!(listing.matches("\n- [").count() >= links.len(), true);
            }
            other => panic!("{:?} on {:?}", other, text),
        }
    }
}

#[test]
fn a_listing_that_is_read_again_gives_its_links_again() {
    let mut numbers = Numbers(17);
    let words = ["a", "b c", "é", "x-y", "1"];
    let paths = ["/a", "/b/c", "http://example.com/x", "#top", "../up"];
    for _ in 0..500 {
        let mut text = String::new();
        let mut expected = Vec::new();
        for _ in 0..numbers.next(6) {
            let word = words[numbers.next(words.len())];
            let path = paths[numbers.next(paths.len())];
            text.push_str(&format!("see [{}]({}) and\n", word, path));
            expected.push((word.to_string(), path.to_string()));
        }
        let links = get_link_data(&text).unwrap();
        let found: Vec<(String, String)> =
            links.iter().map(|l| (l.text.clone(), l.url.clone())).collect();
        assert_eq!(found, expected);
        let again = get_link_data(&format_links(&links)).unwrap();
        assert_eq!(again, links);
    }
}
