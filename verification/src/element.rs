//! Elements, raw elements, and the conversions that let a call site accept
//! "an element" or "an element or nothing".

use vstd::prelude::*;
use crate::dom::{Dom, DomView};

pub mod raw_el;
pub mod raw_text;

use raw_el::{RawHtmlEl, RawSvgEl};
use raw_text::RawText;

verus! {

// ------ IntoDom ------

/// Conversion into a render node. The conversion consumes the value, always
/// succeeds, and its result is fully determined by the value.
pub trait IntoDom: Sized {
    /// The node that `into_dom` produces for this value.
    spec fn dom_view(self) -> DomView;

    /// Produces the render node for this value.
    fn into_dom(self) -> (dom: Dom)
        ensures
            dom@ == self.dom_view(),
    ;
}

// ------ Element ------

/// A single composable unit of the UI tree: anything that lowers to one raw
/// element. A value that holds several elements is not itself an element.
pub trait Element: Sized {
    /// Lowers this value to its raw element, consuming it. What the raw
    /// element holds is for each kind of element to say.
    fn into_raw_element(self) -> RawElement;

    /// Turns this element into the sequence that holds exactly itself, so
    /// that a call site written for many elements takes a single one.
    fn into_elements(self) -> (elements: Vec<Self>)
        ensures
            elements@ == seq![self],
    {
        vec![self]
    }
}

// ------ RawElement ------

/// The closed union of concrete node shapes. Every element lowers to one of
/// these, and exactly one variant is active in any value.
#[derive(Debug, PartialEq, Eq)]
pub enum RawElement {
    /// A standard-markup element.
    El(RawHtmlEl<web_sys::HtmlElement>),
    /// A vector-graphics element.
    SvgEl(RawSvgEl<web_sys::SvgElement>),
    /// A text node.
    Text(RawText),
}

impl View for RawElement {
    type V = DomView;

    /// The node that this raw element describes.
    open spec fn view(&self) -> DomView {
        match *self {
            RawElement::El(raw_el) => DomView::Html { tag: raw_el@ },
            RawElement::SvgEl(raw_svg_el) => DomView::Svg { tag: raw_svg_el@ },
            RawElement::Text(raw_text) => DomView::Text { text: raw_text@ },
        }
    }
}

impl IntoDom for RawElement {
    /// The conversion of the payload of the active variant.
    open spec fn dom_view(self) -> DomView {
        match self {
            RawElement::El(raw_el) => raw_el.dom_view(),
            RawElement::SvgEl(raw_svg_el) => raw_svg_el.dom_view(),
            RawElement::Text(raw_text) => raw_text.dom_view(),
        }
    }

    /// Dispatches on the active variant and converts its payload.
    fn into_dom(self) -> (dom: Dom)
        ensures
            dom@ == self@,
            dom is Html <==> self is El,
            dom is Svg <==> self is SvgEl,
            dom is Text <==> self is Text,
    {
        match self {
            RawElement::El(raw_el) => raw_el.into_dom(),
            RawElement::SvgEl(raw_svg_el) => raw_svg_el.into_dom(),
            RawElement::Text(raw_text) => raw_text.into_dom(),
        }
    }
}

impl Element for RawElement {
    /// A raw element lowers to itself.
    fn into_raw_element(self) -> (raw: RawElement)
        ensures
            raw == self,
    {
        self
    }
}

impl IntoIterator for RawElement {
    type Item = RawElement;

    type IntoIter = std::vec::IntoIter<RawElement>;

    /// Iterating a raw element yields exactly the element itself.
    fn into_iter(self) -> (iter: std::vec::IntoIter<RawElement>)
        ensures
            vstd::std_specs::iter::IteratorSpec::remaining(&iter) == seq![self],
    {
        self.into_elements().into_iter()
    }
}

// ------ IntoElement ------

/// Conversion into an element. Call sites are written against this trait so
/// that they do not name the concrete element type.
pub trait IntoElement<'a>: Sized {
    type EL: Element;

    /// The element that `into_element` produces for this value.
    spec fn element(self) -> Self::EL;

    /// Converts this value into its element.
    fn into_element(self) -> (element: Self::EL)
        ensures
            element == self.element(),
    ;
}

impl<'a, T: Element> IntoElement<'a> for T {
    type EL = T;

    open spec fn element(self) -> T {
        self
    }

    /// Every element converts into itself.
    fn into_element(self) -> (element: T) {
        self
    }
}

// ------ IntoOptionElement ------

/// Conversion into an element or nothing. It is implemented both for values
/// that convert into an element and for options of such values, so a call
/// site takes either without the caller wrapping anything.
pub trait IntoOptionElement<'a>: Sized {
    type EL: Element;

    /// The optional element that `into_option_element` produces for this value.
    spec fn option_element(self) -> Option<Self::EL>;

    /// Converts this value into an optional element.
    fn into_option_element(self) -> (element: Option<Self::EL>)
        ensures
            element == self.option_element(),
    ;
}

impl<'a, T: IntoElement<'a>> IntoOptionElement<'a> for Option<T> {
    type EL = T::EL;

    open spec fn option_element(self) -> Option<T::EL> {
        match self {
            Some(value) => Some(value.element()),
            None => None,
        }
    }

    /// A present value is converted; an absent one stays absent.
    fn into_option_element(self) -> (element: Option<T::EL>) {
        match self {
            Some(value) => Some(value.into_element()),
            None => None,
        }
    }
}

impl<'a, T: IntoElement<'a>> IntoOptionElement<'a> for T {
    type EL = T::EL;

    open spec fn option_element(self) -> Option<T::EL> {
        Some(self.element())
    }

    /// A bare value is always present after conversion.
    fn into_option_element(self) -> (element: Option<T::EL>) {
        Some(self.into_element())
    }
}

// ------ Laws ------

/// A raw element converts to the node it describes, by the conversion of
/// exactly one of its three payload kinds: a standard-markup builder gives a
/// standard-markup node, a vector-graphics builder gives a vector-graphics
/// node, a text value gives a text node.
pub proof fn lemma_variant_exclusivity(raw: RawElement)
    ensures
        raw.dom_view() == raw@,
        raw is El <==> raw.dom_view() is Html,
        raw is SvgEl <==> raw.dom_view() is Svg,
        raw is Text <==> raw.dom_view() is Text,
        raw is El ==> raw.dom_view() == raw->El_0.dom_view(),
        raw is SvgEl ==> raw.dom_view() == raw->SvgEl_0.dom_view(),
        raw is Text ==> raw.dom_view() == raw->Text_0.dom_view(),
{
}

/// Wrapping a payload in its raw element variant and converting that gives
/// the same node as converting the payload directly.
pub proof fn lemma_wrapping_keeps_the_node(
    raw_el: RawHtmlEl<web_sys::HtmlElement>,
    raw_svg_el: RawSvgEl<web_sys::SvgElement>,
    raw_text: RawText,
)
    ensures
        RawElement::El(raw_el).dom_view() == raw_el.dom_view(),
        RawElement::SvgEl(raw_svg_el).dom_view() == raw_svg_el.dom_view(),
        RawElement::Text(raw_text).dom_view() == raw_text.dom_view(),
{
}

/// An element converts into itself.
pub proof fn lemma_element_converts_into_itself<'a, T: Element>(element: T)
    ensures
        element.element() == element,
        element.option_element() == Some(element),
{
}

/// A present option converts to the present conversion of what it holds.
pub proof fn lemma_present_option_stays_present<'a, T: IntoElement<'a>>(value: T)
    ensures
        Some(value).option_element() == Some(value.element()),
{
}

/// An absent option converts to nothing, whatever it could have held.
pub proof fn lemma_absent_option_stays_absent<'a, T: IntoElement<'a>>()
    ensures
        None::<T>.option_element() == None::<T::EL>,
{
}

/// A bare value converts to the present conversion of itself: presence is
/// never lost when the caller did not wrap the value in an option.
pub proof fn lemma_bare_value_becomes_present<'a, T: IntoElement<'a>>(value: T)
    ensures
        value.option_element() == Some(value.element()),
{
}

} // verus!
