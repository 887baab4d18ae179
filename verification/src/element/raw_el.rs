//! Raw element builders: one for standard-markup elements, one for
//! vector-graphics elements. The type parameter names the class of DOM
//! element that the builder stands for.

use core::marker::PhantomData;
use vstd::prelude::*;
use crate::dom::{Dom, DomView};
use crate::element::IntoDom;

verus! {

/// `web_sys::HtmlElement`, the DOM class of standard-markup elements. It is
/// used only as a type argument; nothing is assumed about its values.
#[verifier::external_type_specification]
#[verifier::external_body]
pub struct ExHtmlElement(web_sys::HtmlElement);

/// `web_sys::SvgElement`, the DOM class of vector-graphics elements. It is
/// used only as a type argument; nothing is assumed about its values.
#[verifier::external_type_specification]
#[verifier::external_body]
pub struct ExSvgElement(web_sys::SvgElement);

/// A builder of a standard-markup element.
#[derive(Debug, PartialEq, Eq)]
pub struct RawHtmlEl<DomElement> {
    tag: String,
    dom_element: PhantomData<DomElement>,
}

/// A builder of a vector-graphics element.
#[derive(Debug, PartialEq, Eq)]
pub struct RawSvgEl<DomElement> {
    tag: String,
    dom_element: PhantomData<DomElement>,
}

impl<DomElement> View for RawHtmlEl<DomElement> {
    type V = Seq<char>;

    /// The tag name of the element being built.
    closed spec fn view(&self) -> Seq<char> {
        self.tag@
    }
}

impl<DomElement> View for RawSvgEl<DomElement> {
    type V = Seq<char>;

    /// The tag name of the element being built.
    closed spec fn view(&self) -> Seq<char> {
        self.tag@
    }
}

impl RawHtmlEl<web_sys::HtmlElement> {
    /// Starts a standard-markup element with the given tag name.
    pub fn new(tag: &str) -> (raw: Self)
        ensures
            raw@ == tag@,
    {
        RawHtmlEl { tag: tag.to_owned(), dom_element: PhantomData }
    }
}

impl RawSvgEl<web_sys::SvgElement> {
    /// Starts a vector-graphics element with the given tag name.
    pub fn new(tag: &str) -> (raw: Self)
        ensures
            raw@ == tag@,
    {
        RawSvgEl { tag: tag.to_owned(), dom_element: PhantomData }
    }
}

impl<DomElement> IntoDom for RawHtmlEl<DomElement> {
    open spec fn dom_view(self) -> DomView {
        DomView::Html { tag: self@ }
    }

    fn into_dom(self) -> (dom: Dom) {
        Dom::Html { tag: self.tag }
    }
}

impl<DomElement> IntoDom for RawSvgEl<DomElement> {
    open spec fn dom_view(self) -> DomView {
        DomView::Svg { tag: self@ }
    }

    fn into_dom(self) -> (dom: Dom) {
        Dom::Svg { tag: self.tag }
    }
}

} // verus!
