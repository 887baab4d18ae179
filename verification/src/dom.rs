//! Render nodes: the closed set of node shapes that the render engine accepts.

use vstd::prelude::*;

verus! {

/// The mathematical content of a render node: its shape and what it carries.
pub enum DomView {
    /// A standard-markup element with the given tag name.
    Html { tag: Seq<char> },
    /// A vector-graphics element with the given tag name.
    Svg { tag: Seq<char> },
    /// A text node with the given content.
    Text { text: Seq<char> },
}

/// A render node, ready to be handed to the render engine.
#[derive(Debug, PartialEq, Eq)]
pub enum Dom {
    /// A standard-markup element.
    Html { tag: String },
    /// A vector-graphics element.
    Svg { tag: String },
    /// A text node.
    Text { text: String },
}

impl View for Dom {
    type V = DomView;

    open spec fn view(&self) -> DomView {
        match *self {
            Dom::Html { tag } => DomView::Html { tag: tag@ },
            Dom::Svg { tag } => DomView::Svg { tag: tag@ },
            Dom::Text { text } => DomView::Text { text: text@ },
        }
    }
}

} // verus!
