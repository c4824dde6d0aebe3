//! The boundary to the HTML parser. A fetched page is modeled by the text
//! it was parsed from: parsing and CSS selection are deterministic functions
//! of that text, recomputed by the parser crate behind the trusted wrappers
//! below, and the two selection results are given names that the extractors'
//! contracts speak of.

use vstd::prelude::*;

verus! {

/// The text parts, in document order, of the descendant text nodes of the
/// first element of `page` (parsed as an HTML document) that matches the
/// CSS selector group `selector`; `None` when no element matches or the
/// selector is not valid CSS.
pub uninterp spec fn first_match_text(page: Seq<char>, selector: Seq<char>) -> Option<
    Seq<Seq<char>>,
>;

/// The value of attribute `attr` on the first element of `page` (parsed as
/// an HTML document) that matches the CSS selector group `selector`; `None`
/// when no element matches, the matched element has no such attribute, or
/// the selector is not valid CSS.
pub uninterp spec fn first_match_attr(page: Seq<char>, selector: Seq<char>, attr: Seq<char>) -> Option<
    Seq<char>,
>;

/// One parsed front page, modeled by the text it was parsed from. HTML
/// parsing never fails: malformed markup degrades per the standard
/// recovery rules inside the parser, so any text is a document.
pub struct Document {
    html: String,
}

impl View for Document {
    type V = Seq<char>;

    closed spec fn view(&self) -> Seq<char> {
        self.html@
    }
}

impl Document {
    /// Takes the fetched page text as a document.
    pub fn from_text(html: String) -> (d: Document)
        ensures
            d@ == html@,
    {
        Document { html }
    }

    /// The text of the page the document was parsed from.
    pub fn text(&self) -> (r: &str)
        ensures
            r@ == self@,
    {
        self.html.as_str()
    }
}

/// Relies on scraper (`Html::parse_document`, `Selector::parse`,
/// `Html::select`, `ElementRef::text`): parses `page`, takes the first
/// element matching `selector` in document order, and hands back the text
/// of its descendant text nodes in order. Parsing and matching depend on
/// the two strings alone.
#[verifier::external_body]
pub(crate) fn select_first_text(page: &str, selector: &str) -> (r: Option<Vec<String>>)
    ensures
        r.deep_view() == first_match_text(page@, selector@),
{
    let document = scraper::Html::parse_document(page);
    let selector = scraper::Selector::parse(selector).ok()?;
    let element = document.select(&selector).next()?;
    Some(element.text().map(str::to_owned).collect())
}

/// Relies on scraper (`Html::parse_document`, `Selector::parse`,
/// `Html::select`, `ElementRef::attr`): parses `page`, takes the first
/// element matching `selector` in document order, and hands back the value
/// of its attribute `attr`. Parsing and matching depend on the three
/// strings alone.
#[verifier::external_body]
pub(crate) fn select_first_attr(page: &str, selector: &str, attr: &str) -> (r: Option<String>)
    ensures
        r.deep_view() == first_match_attr(page@, selector@, attr@),
{
    let document = scraper::Html::parse_document(page);
    let selector = scraper::Selector::parse(selector).ok()?;
    let element = document.select(&selector).next()?;
    element.attr(attr).map(str::to_owned)
}

} // verus!
