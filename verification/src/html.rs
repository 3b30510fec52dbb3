//! HTML documents and CSS selectors, through the `scraper` crate.
//!
//! Elements are named by their position among the document's elements in
//! document order (the root `<html>` element is position 0).

use vstd::prelude::*;

use crate::text::{opt_view, strs};

verus! {

#[verifier::external_type_specification]
#[verifier::external_body]
pub struct ExHtml(scraper::Html);

#[verifier::external_type_specification]
#[verifier::external_body]
pub struct ExSelector(scraper::Selector);

/// Positions of the elements of the HTML document `document` that
/// `selector` matches, in document order.
pub uninterp spec fn html_select_all(document: Seq<char>, selector: Seq<char>) -> Seq<usize>;

/// Positions of the descendants of the element at position `scope` that
/// `selector` matches, in document order.
pub uninterp spec fn html_select_within(document: Seq<char>, scope: usize, selector: Seq<char>) -> Seq<usize>;

/// The value of attribute `name` of the element at position `element`.
pub uninterp spec fn html_attr_spec(document: Seq<char>, element: usize, name: Seq<char>) -> Option<Seq<char>>;

/// The text nodes under the element at position `element`, in order.
pub uninterp spec fn html_text_spec(document: Seq<char>, element: usize) -> Seq<Seq<char>>;

/// The display text of the error `scraper::Selector::parse` reports for
/// `selector`, or `None` when it parses.
pub uninterp spec fn css_selector_error(selector: Seq<char>) -> Option<Seq<char>>;

/// A parsed HTML document with its source text.
pub struct HtmlDocument {
    source: String,
    document: scraper::Html,
}

impl View for HtmlDocument {
    type V = Seq<char>;

    closed spec fn view(&self) -> Seq<char> {
        self.source@
    }
}

/// A compiled CSS selector with its source text.
pub struct CssSelector {
    source: String,
    compiled: scraper::Selector,
}

impl View for CssSelector {
    type V = Seq<char>;

    closed spec fn view(&self) -> Seq<char> {
        self.source@
    }
}

impl HtmlDocument {
    /// `scraper::Html::parse_document`.
    ///
    /// Trusted: keeps the source text beside the parsed document, so that the
    /// document is the one `text` describes.
    #[verifier::external_body]
    pub(crate) fn parse(text: &str) -> (r: HtmlDocument)
        ensures
            r@ == text@,
    {
        HtmlDocument { source: text.to_string(), document: scraper::Html::parse_document(text) }
    }

    /// `Html::select`: the elements of the whole document that `selector`
    /// matches.
    ///
    /// Trusted: the result is `html_select_all(self, selector)`, each
    /// match given by its position among `root_element().descendent_elements()`.
    #[verifier::external_body]
    pub(crate) fn select_all(&self, selector: &CssSelector) -> (r: Vec<usize>)
        ensures
            r@ == html_select_all(self@, selector@),
    {
        let ids: Vec<_> = self.document.root_element().descendent_elements().map(|e| e.id()).collect();
        let found = self.document.select(&selector.compiled);
        found.map(|e| ids.iter().take_while(|id| **id != e.id()).count()).collect()
    }

    /// `ElementRef::select`: the descendants of the element at position
    /// `scope` that `selector` matches.
    ///
    /// Trusted: the result is `html_select_within(self, scope, selector)`,
    /// each match given by its position among
    /// `root_element().descendent_elements()`; a scope past the last element
    /// matches nothing.
    #[verifier::external_body]
    pub(crate) fn select_within(&self, scope: usize, selector: &CssSelector) -> (r: Vec<usize>)
        ensures
            r@ == html_select_within(self@, scope, selector@),
    {
        let ids: Vec<_> = self.document.root_element().descendent_elements().map(|e| e.id()).collect();
        let scoped = self.document.root_element().descendent_elements().nth(scope);
        let found = scoped.into_iter().flat_map(|element| element.select(&selector.compiled));
        found.map(|e| ids.iter().take_while(|id| **id != e.id()).count()).collect()
    }

    /// `ElementRef::attr` of the element at position `element`.
    ///
    /// Trusted: the result is `html_attr_spec(self, element, name)`.
    #[verifier::external_body]
    pub(crate) fn attr(&self, element: usize, name: &str) -> (r: Option<String>)
        ensures
            opt_view(r) == html_attr_spec(self@, element, name@),
    {
        self.document.root_element().descendent_elements().nth(element).and_then(|e| e.attr(name)).map(|v| v.to_string())
    }

    /// `ElementRef::text` of the element at position `element`.
    ///
    /// Trusted: the result is `html_text_spec(self, element)`.
    #[verifier::external_body]
    pub(crate) fn texts(&self, element: usize) -> (r: Vec<String>)
        ensures
            strs(r@) == html_text_spec(self@, element),
    {
        self.document.root_element().descendent_elements().nth(element).map(|e| e.text().map(|t| t.to_string()).collect()).unwrap_or_default()
    }
}

impl CssSelector {
    /// `scraper::Selector::parse`.
    ///
    /// Trusted: succeeds exactly when `css_selector_error(raw)` is `None`;
    /// an error carries the display text of the selector error.
    #[verifier::external_body]
    pub(crate) fn parse(raw: &str) -> (r: Result<CssSelector, String>)
        ensures
            match r {
                Ok(s) => s@ == raw@ && css_selector_error(raw@) is None,
                Err(e) => css_selector_error(raw@) == Some(e@),
            },
    {
        match scraper::Selector::parse(raw) {
            Ok(compiled) => Ok(CssSelector { source: raw.to_string(), compiled }),
            Err(error) => Err(error.to_string()),
        }
    }
}

} // verus!
