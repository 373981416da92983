//! Snapshots of saved pages: parsing their URL, extracting the readable
//! article from the raw HTML, and finding the page title.
use vstd::prelude::*;

verus! {

#[verifier::external_type_specification]
#[verifier::external_body]
pub struct ExUrl(url::Url);

#[verifier::external_type_specification]
#[verifier::external_body]
pub struct ExUrlParseError(url::ParseError);

#[verifier::external_type_specification]
#[verifier::external_body]
pub struct ExReadabilityError(readability::error::Error);

#[verifier::external_type_specification]
#[verifier::external_body]
pub struct ExHtml(scraper::Html);

#[verifier::external_type_specification]
#[verifier::external_body]
pub struct ExSelector(scraper::Selector);

/// Why a snapshot could not be processed.
#[derive(Debug, Clone, Copy, PartialEq, Eq, Structural)]
pub enum PageError {
    /// The page's URL is not an absolute URL.
    InvalidUrl,
    /// The readable article could not be extracted from the HTML.
    Unreadable,
    /// The selector for the `title` element could not be built.
    NoTitleSelector,
}

/// A URL accepted by `url::Url::parse`, with the text it was parsed from.
/// Only `parse_page_url` makes one, so `parsed` is always the parse of `source`.
pub struct PageUrl {
    source: String,
    parsed: url::Url,
}

impl View for PageUrl {
    type V = Seq<char>;

    /// The text the URL was parsed from.
    closed spec fn view(&self) -> Seq<char> {
        self.source@
    }
}

/// An HTML document parsed by `scraper::Html::parse_document`, with its
/// source. Only `parse_document` makes one.
pub struct HtmlDocument {
    source: String,
    parsed: scraper::Html,
}

impl View for HtmlDocument {
    type V = Seq<char>;

    /// The HTML the document was parsed from.
    closed spec fn view(&self) -> Seq<char> {
        self.source@
    }
}

/// A CSS selector parsed by `scraper::Selector::parse`, with its text.
/// Only `parse_selector` makes one.
pub struct CssSelector {
    text: String,
    parsed: scraper::Selector,
}

impl View for CssSelector {
    type V = Seq<char>;

    /// The text of the selector.
    closed spec fn view(&self) -> Seq<char> {
        self.text@
    }
}

/// Whether `url::Url::parse` accepts `s` as an absolute URL.
pub uninterp spec fn url_accepts(s: Seq<char>) -> bool;

/// The article HTML that `readability::extractor::extract` finds in `html`
/// for the page at the URL parsed from `url`, or `None` where it fails.
pub uninterp spec fn readability_content(html: Seq<char>, url: Seq<char>) -> Option<Seq<char>>;

/// Whether `scraper::Selector::parse` accepts `css`.
pub uninterp spec fn css_selector_accepts(css: Seq<char>) -> bool;

/// The text of the first element of the document parsed from `html` that
/// matches the selector parsed from `css` (all its text nodes, in order),
/// or `None` when none matches.
pub uninterp spec fn first_match_text(html: Seq<char>, css: Seq<char>) -> Option<Seq<char>>;

/// Parses a URL with `url::Url::parse`.
///
/// Trusted: succeeds exactly when `url_accepts` holds of the text, and the
/// result remembers the text it was parsed from.
#[verifier::external_body]
pub fn parse_page_url(s: &str) -> (r: Result<PageUrl, url::ParseError>)
    ensures
        r is Ok <==> url_accepts(s@),
        r matches Ok(u) ==> u@ == s@,
{
    url::Url::parse(s).map(|parsed| PageUrl { source: s.to_string(), parsed })
}

/// Extracts the readable article with `readability::extractor::extract`,
/// reading the HTML from memory.
///
/// Trusted: the article's `content` is `readability_content` of the HTML
/// and the URL's text; the extraction is deterministic (it ranks candidate
/// nodes in a `BTreeMap`).
#[verifier::external_body]
fn readability_extract(html: &str, url: &PageUrl) -> (r: Result<String, readability::error::Error>)
    ensures
        r is Ok <==> readability_content(html@, url@) is Some,
        r matches Ok(c) ==> readability_content(html@, url@) == Some(c@),
{
    let mut input = std::io::Cursor::new(html);
    readability::extractor::extract(&mut input, &url.parsed).map(|product| product.content)
}

/// Parses an HTML document with `scraper::Html::parse_document`.
///
/// Trusted: the result remembers the HTML it was parsed from.
#[verifier::external_body]
pub fn parse_document(html: &str) -> (r: HtmlDocument)
    ensures
        r@ == html@,
{
    HtmlDocument { source: html.to_string(), parsed: scraper::Html::parse_document(html) }
}

/// Parses a CSS selector with `scraper::Selector::parse`.
///
/// Trusted: succeeds exactly when `css_selector_accepts` holds of the
/// text, and the result remembers its text. A bare element name such as
/// `title` is a type selector, which the selector grammar always accepts.
#[verifier::external_body]
pub fn parse_selector(css: &str) -> (r: Option<CssSelector>)
    ensures
        r is Some <==> css_selector_accepts(css@),
        r is Some <== css@ == "title"@,
        r matches Some(s) ==> s@ == css@,
{
    scraper::Selector::parse(css).ok().map(|parsed| CssSelector { text: css.to_string(), parsed })
}

/// The text of the first element matching a selector, with
/// `scraper::Html::select` and `ElementRef::text`.
///
/// Trusted: the answer is `first_match_text` of the document's HTML and the
/// selector's text.
#[verifier::external_body]
pub fn select_first_text(document: &HtmlDocument, selector: &CssSelector) -> (r: Option<String>)
    ensures
        r is Some <==> first_match_text(document@, selector@) is Some,
        r matches Some(t) ==> first_match_text(document@, selector@) == Some(t@),
{
    document.parsed.select(&selector.parsed).next().map(|element| element.text().collect::<String>())
}

/// The view of an optional string.
pub open spec fn opt_view(o: Option<String>) -> Option<Seq<char>> {
    match o {
        Some(s) => Some(s@),
        None => None,
    }
}

/// Parses the URL of a saved page (`Url::parse(&page.url)?`).
pub fn page_url(s: &str) -> (r: Result<PageUrl, PageError>)
    ensures
        r is Ok <==> url_accepts(s@),
        r matches Ok(u) ==> u@ == s@,
        r matches Err(e) ==> e == PageError::InvalidUrl,
{
    match parse_page_url(s) {
        Ok(u) => Ok(u),
        Err(_) => Err(PageError::InvalidUrl),
    }
}

/// The readable article of a page: the HTML that readability keeps.
pub fn clean_raw_html(raw_html: &str, url: &PageUrl) -> (r: Result<String, PageError>)
    ensures
        r is Ok <==> readability_content(raw_html@, url@) is Some,
        r matches Ok(c) ==> readability_content(raw_html@, url@) == Some(c@),
        r matches Err(e) ==> e == PageError::Unreadable,
{
    match readability_extract(raw_html, url) {
        Ok(content) => Ok(content),
        Err(_) => Err(PageError::Unreadable),
    }
}

/// The text of a page's first `title` element, if it has one.
pub fn extract_title(content: &str) -> (r: Result<Option<String>, PageError>)
    ensures
        r matches Ok(t) && opt_view(t) == first_match_text(content@, "title"@),
{
    let document = parse_document(content);
    match parse_selector("title") {
        None => Err(PageError::NoTitleSelector),
        Some(selector) => Ok(select_first_text(&document, &selector)),
    }
}

} // verus!
