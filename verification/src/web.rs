//! Calls into `scraper`, `url`, `http` and `goblin`, with what their results
//! are named.
use vstd::prelude::*;
use crate::outside_text::{groups_view, opt_view};

verus! {

/// What `scraper::Selector::parse(css)` yields: the display text of its
/// error, or `None` when the selector parses.
pub uninterp spec fn css_selector_error(css: Seq<char>) -> Option<Seq<char>>;

/// The `href` of every `a[href]` element of the HTML document `body`, in
/// document order; with a scope selector, those inside each element the scope
/// selects, scope element by scope element. `None` stands for an element
/// whose `href` could not be read.
pub uninterp spec fn html_anchor_hrefs(body: Seq<char>, scope: Option<Seq<char>>) -> Seq<Option<Seq<char>>>;

/// The text of every element of the HTML document `body` that the selector
/// `css` selects, in document order (each element's text nodes concatenated).
pub uninterp spec fn html_element_texts(body: Seq<char>, css: Seq<char>) -> Seq<Seq<char>>;

/// What `url::Url::parse(base)` then `join(href)` yields, as text; `None`
/// when either fails.
pub uninterp spec fn url_join_result(base: Seq<char>, href: Seq<char>) -> Option<Seq<char>>;

/// The canonical reason phrase `http` knows for a status code (`Not Found`
/// for 404), if it knows one.
pub uninterp spec fn http_canonical_reason(code: u16) -> Option<Seq<char>>;

/// What `goblin::pe::header::Header::parse` makes of some bytes: the display
/// text of its error, or the image and operating-system version numbers
/// (major image, minor image, major OS, minor OS) of the optional header,
/// `None` when there is no optional header.
pub uninterp spec fn pe_version_fields(bytes: Seq<u8>) -> Result<Option<(u16, u16, u16, u16)>, Seq<char>>;

/// Parses a CSS selector with `scraper::Selector::parse`; the display text of
/// the error, if any.
#[verifier::external_body]
pub(crate) fn css_check(css: &str) -> (r: Option<String>)
    ensures
        opt_view(r) == css_selector_error(css@),
{
    match scraper::Selector::parse(css) {
        Ok(_) => None,
        Err(e) => Some(e.to_string()),
    }
}

/// Parses `body` with `scraper::Html::parse_document` and reads the `href` of
/// each `a[href]` element (inside the elements `scope` selects, if given).
#[verifier::external_body]
pub(crate) fn anchor_hrefs(body: &str, scope: Option<&str>) -> (r: Vec<Option<String>>)
    requires
        scope matches Some(c) ==> css_selector_error(c@) is None,
    ensures
        groups_view(r@) == html_anchor_hrefs(
            body@,
            match scope {
                Some(c) => Some(c@),
                None => None,
            },
        ),
{
    let doc = scraper::Html::parse_document(body);
    let Ok(a) = scraper::Selector::parse("a[href]") else { return Vec::new() };
    let href = |e: scraper::ElementRef| e.value().attr("href").map(str::to_string);
    match scope.map(scraper::Selector::parse) {
        Some(Ok(s)) => doc.select(&s).flat_map(|el| el.select(&a)).map(href).collect(),
        Some(Err(_)) => Vec::new(),
        None => doc.select(&a).map(href).collect(),
    }
}

/// Parses `body` with `scraper::Html::parse_document` and collects the text
/// of each element `css` selects.
#[verifier::external_body]
pub(crate) fn element_texts(body: &str, css: &str) -> (r: Vec<String>)
    requires
        css_selector_error(css@) is None,
    ensures
        r@.map_values(|s: String| s@) == html_element_texts(body@, css@),
{
    let doc = scraper::Html::parse_document(body);
    let Ok(s) = scraper::Selector::parse(css) else { return Vec::new() };
    doc.select(&s).map(|el| el.text().collect::<String>()).collect()
}

/// Resolves `href` against the base URL `base` with `url::Url::parse` and `join`.
#[verifier::external_body]
pub(crate) fn url_join(base: &str, href: &str) -> (r: Option<String>)
    ensures
        opt_view(r) == url_join_result(base@, href@),
{
    let base = url::Url::parse(base).ok()?;
    base.join(href).ok().map(|u| u.to_string())
}

/// The canonical reason phrase of a status code (`http::StatusCode::canonical_reason`).
#[verifier::external_body]
pub(crate) fn canonical_reason(code: u16) -> (r: Option<String>)
    requires
        100 <= code <= 999,
    ensures
        opt_view(r) == http_canonical_reason(code),
{
    match http::StatusCode::from_u16(code) {
        Ok(s) => s.canonical_reason().map(str::to_string),
        Err(_) => None,
    }
}

/// Parses the headers of a PE image with `goblin::pe::header::Header::parse`
/// (the DOS header and stub, the Rich header, the COFF header and the optional
/// header, which `goblin::pe::PE::parse` parses first too) and reads the
/// version numbers of its optional header. Every read in that parse goes
/// through scroll's checked `gread`/`pread`, and its two slices (the DOS stub
/// and the Rich header scan) are bounds-checked first, so it returns on every
/// input. The full `PE::parse` goes on to the export, import, debug, TLS,
/// exception and certificate tables, where a TLS directory whose raw data runs
/// past the file makes it slice out of bounds; those tables are not needed for
/// the version numbers.
#[verifier::external_body]
pub(crate) fn pe_versions(bytes: &[u8]) -> (r: Result<Option<(u16, u16, u16, u16)>, String>)
    ensures
        match r {
            Ok(v) => pe_version_fields(bytes@) == Ok::<_, Seq<char>>(v),
            Err(e) => pe_version_fields(bytes@) == Err::<Option<(u16, u16, u16, u16)>, _>(e@),
        },
{
    match goblin::pe::header::Header::parse(bytes) {
        Ok(header) => Ok(header.optional_header.map(|h| {
            let w = h.windows_fields;
            (w.major_image_version, w.minor_image_version, w.major_operating_system_version, w.minor_operating_system_version)
        })),
        Err(e) => Err(format!("{e}")),
    }
}

} // verus!
