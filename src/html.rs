//! HTML documents, read through the `scraper` crate. Its values are opaque
//! here: what a selector finds on a page is the portal's markup, which no
//! contract can describe.

use vstd::prelude::*;

verus! {

#[verifier::external_type_specification]
#[verifier::external_body]
pub struct ExHtml(scraper::Html);

#[verifier::external_type_specification]
#[verifier::external_body]
pub struct ExSelector(scraper::Selector);

#[verifier::external_type_specification]
#[verifier::external_body]
pub struct ExElementRef<'a>(scraper::ElementRef<'a>);

/// Relies on `scraper::Html::parse_document`.
#[verifier::external_body]
pub(crate) fn parse_document(text: &str) -> scraper::Html {
    scraper::Html::parse_document(text)
}

/// Relies on `scraper::Html::root_element`.
#[verifier::external_body]
pub(crate) fn root_element(doc: &scraper::Html) -> scraper::ElementRef<'_> {
    doc.root_element()
}

/// Relies on `scraper::Selector::parse`: `None` where the selector is not valid CSS.
#[verifier::external_body]
pub(crate) fn parse_selector(text: &str) -> Option<scraper::Selector> {
    scraper::Selector::parse(text).ok()
}

/// Relies on `scraper::ElementRef::select`: the matching descendants, in document order.
#[verifier::external_body]
pub(crate) fn select_all<'a>(e: scraper::ElementRef<'a>, s: &scraper::Selector) -> Vec<scraper::ElementRef<'a>> {
    e.select(s).collect()
}

/// Relies on `scraper::ElementRef::text`: the element's text, joined.
#[verifier::external_body]
pub(crate) fn text_of(e: scraper::ElementRef<'_>) -> String {
    e.text().collect()
}

/// Relies on `scraper::ElementRef::attr`.
#[verifier::external_body]
pub(crate) fn attr_of(e: scraper::ElementRef<'_>, name: &str) -> Option<String> {
    e.attr(name).map(|v| v.to_string())
}

/// Relies on `scraper::ElementRef::child_elements`.
#[verifier::external_body]
pub(crate) fn child_elements<'a>(e: scraper::ElementRef<'a>) -> Vec<scraper::ElementRef<'a>> {
    e.child_elements().collect()
}

/// The elements under `e` that a selector finds; none where the selector is not valid.
pub fn select<'a>(e: scraper::ElementRef<'a>, selector: &str) -> Vec<scraper::ElementRef<'a>> {
    match parse_selector(selector) {
        Some(s) => select_all(e, &s),
        None => Vec::new(),
    }
}

/// The first element under `e` that a selector finds.
pub fn select_first<'a>(e: scraper::ElementRef<'a>, selector: &str) -> Option<scraper::ElementRef<'a>> {
    let found = select(e, selector);
    if found.len() == 0 {
        None
    } else {
        Some(found[0])
    }
}

/// The text of the first element under `e` that a selector finds.
pub fn first_text(e: scraper::ElementRef<'_>, selector: &str) -> Option<String> {
    match select_first(e, selector) {
        Some(x) => Some(text_of(x)),
        None => None,
    }
}

/// An attribute of the first element under `e` that a selector finds.
pub fn first_attr(e: scraper::ElementRef<'_>, selector: &str, name: &str) -> Option<String> {
    match select_first(e, selector) {
        Some(x) => attr_of(x, name),
        None => None,
    }
}

/// An attribute of the first child element of `e`.
pub fn first_child_attr(e: scraper::ElementRef<'_>, name: &str) -> Option<String> {
    let children = child_elements(e);
    if children.len() == 0 {
        None
    } else {
        attr_of(children[0], name)
    }
}

} // verus!
