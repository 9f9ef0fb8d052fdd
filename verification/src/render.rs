//! The renderer: `markdown` turns the document into HTML.
//!
//! Nothing in this file is proved. The rules of Markdown are the renderer's
//! business; here its result only gets a name.

use vstd::prelude::*;

verus! {

/// The HTML that `markdown::to_html` makes of a text: CommonMark with the
/// crate's default options, under which HTML that is written in the text is
/// escaped and not passed on.
pub uninterp spec fn markdown_html(text: Seq<char>) -> Seq<char>;

/// Calls `markdown::to_html`. It reads nothing but its argument, so the same
/// text always gives the same HTML; and it has no failure to report, since
/// to Markdown every text is a document.
#[verifier::external_body]
pub(crate) fn to_html(text: &str) -> (html: String)
    ensures
        html@ == markdown_html(text@),
{
    markdown::to_html(text)
}

} // verus!
