//! Raw text nodes.

use vstd::prelude::*;
use crate::dom::{Dom, DomView};
use crate::element::IntoDom;

verus! {

/// A text-content value that lowers to a text node.
#[derive(Debug, PartialEq, Eq)]
pub struct RawText {
    text: String,
}

impl View for RawText {
    type V = Seq<char>;

    /// The text carried by this value.
    closed spec fn view(&self) -> Seq<char> {
        self.text@
    }
}

impl RawText {
    /// Wraps `text` as a raw text value.
    pub fn new(text: &str) -> (raw: Self)
        ensures
            raw@ == text@,
    {
        RawText { text: text.to_owned() }
    }
}

impl IntoDom for RawText {
    open spec fn dom_view(self) -> DomView {
        DomView::Text { text: self@ }
    }

    fn into_dom(self) -> (dom: Dom) {
        Dom::Text { text: self.text }
    }
}

} // verus!
