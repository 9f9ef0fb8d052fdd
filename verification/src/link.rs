//! The data that travels from the document to the appended list.

use vstd::prelude::*;

verus! {

/// One hyperlink of the document. Two links may hold the same text or the
/// same URL: a link is told from another only by its place in the list.
#[derive(Debug, Clone, PartialEq, Eq)]
pub struct Link {
    /// The value of the anchor's `href` attribute, as written: a relative
    /// URL stays relative, an empty one stays empty.
    pub url: String,
    /// The text inside the anchor, tags stripped. May be empty.
    pub text: String,
}

/// A `Link` as the contracts see it.
pub struct LinkView {
    pub url: Seq<char>,
    pub text: Seq<char>,
}

impl View for Link {
    type V = LinkView;

    open spec fn view(&self) -> LinkView {
        LinkView { url: self.url@, text: self.text@ }
    }
}

impl DeepView for Link {
    type V = LinkView;

    open spec fn deep_view(&self) -> LinkView {
        self@
    }
}

/// What the HTML engine reports of one anchor element.
#[derive(Debug, Clone, PartialEq, Eq)]
pub struct Anchor {
    /// The text inside the element, tags stripped.
    pub text: String,
    /// The value of the element's `href` attribute; `None` where the element
    /// has no such attribute, or has it without a value.
    pub href: Option<String>,
}

/// An `Anchor` as the contracts see it.
pub struct AnchorView {
    pub text: Seq<char>,
    pub href: Option<Seq<char>>,
}

impl View for Anchor {
    type V = AnchorView;

    open spec fn view(&self) -> AnchorView {
        AnchorView { text: self.text@, href: self.href.deep_view() }
    }
}

impl DeepView for Anchor {
    type V = AnchorView;

    open spec fn deep_view(&self) -> AnchorView {
        self@
    }
}

} // verus!
