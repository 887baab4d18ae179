//! The verified core of a reactive UI toolkit and of its project tool.
//!
//! [`element`] holds element composition and lowering: application code
//! assembles values that are [`Element`]s, every element lowers to a
//! [`RawElement`], a closed union of the node shapes the render engine knows,
//! and a raw element converts into a render node ([`Dom`]).
//!
//! [`command`] holds what the project tool decides when it creates a project.

pub mod command;
pub mod dom;
pub mod element;

pub use dom::{Dom, DomView};
pub use element::raw_el::{RawHtmlEl, RawSvgEl};
pub use element::raw_text::RawText;
pub use element::{Element, IntoDom, IntoElement, IntoOptionElement, RawElement};
