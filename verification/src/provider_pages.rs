//! What the providers that read headers, pages and executables make of what
//! they fetched: `http_head`, `redirect`, `html_scrape`, `browser_scrape` and
//! `pe_download`.
use vstd::prelude::*;
use crate::numeric::{decimal, push_decimal};
use crate::outside_text::{opt_view, regex_captures, regex_check, regex_compile_error, regex_match_groups};
use crate::provider_api::assets_view;
use crate::providers::{
    capture_first_group, capture_group_1, check_rate_limit, found, CheckError, CheckOutcome,
    CheckResult, ReleaseAsset,
};
use crate::text::{
    after_last, concat2, has_prefix, last_piece, push_str_chars, starts_with_str,
    string_from_chars, string_from_str, without_prefix,
};
use crate::web::{
    anchor_hrefs, css_check, css_selector_error, element_texts, html_anchor_hrefs,
    html_element_texts, pe_version_fields, pe_versions, url_join, url_join_result,
};

verus! {

/// A found outcome with a version and a download URL and nothing else.
pub open spec fn found_with(r: Result<CheckOutcome, CheckError>, version: Seq<char>, url: Option<Seq<char>>) -> bool {
    r matches Ok(CheckOutcome::Found(c)) && c.version@ == version && opt_view(c.url) == url
        && c.sha256 is None && c.release_notes_url is None && !c.pre_release && c.assets@.len() == 0
}

/// The error of a regex that does not compile.
pub open spec fn is_invalid_regex(r: Result<CheckOutcome, CheckError>, e: Seq<char>) -> bool {
    r matches Err(CheckError::Other(m)) && m@ == "invalid regex: "@ + e
}

/// The version group 1 of the regex captures in a header, if it is present
/// and matches.
pub open spec fn header_version(pattern: Seq<char>, header: Option<Seq<char>>) -> Option<Seq<char>> {
    match header {
        Some(h) => match capture_group_1(pattern, h) {
            Ok(Some(v)) => Some(v),
            _ => None,
        },
        None => None,
    }
}

fn version_in(pattern: &str, text: &Option<String>) -> (r: Option<String>)
    requires
        regex_compile_error(pattern@) is None,
    ensures
        opt_view(r) == header_version(pattern@, opt_view(*text)),
{
    match text {
        Some(t) => match capture_first_group(pattern, t.as_str()) {
            Ok(Some(v)) => Some(v),
            _ => None,
        },
        None => None,
    }
}

fn opt_string(o: &Option<String>) -> (r: Option<String>)
    ensures
        opt_view(r) == opt_view(*o),
{
    match o {
        Some(s) => Some(string_from_str(s.as_str())),
        None => None,
    }
}

/// What the `http_head` provider finds in the answer to a HEAD request of
/// `url`: the version from the `Content-Disposition` header (download URL
/// `url`), else from the `Location` header (download URL the location), else
/// from the final URL after redirects (download URL that URL).
pub open spec fn is_head_outcome(url: Seq<char>, pattern: Seq<char>, disposition: Option<Seq<char>>, location: Option<Seq<char>>, final_url: Seq<char>, r: Result<CheckOutcome, CheckError>) -> bool {
    match regex_compile_error(pattern) {
        Some(e) => is_invalid_regex(r, e),
        None => match header_version(pattern, disposition) {
            Some(v) => found_with(r, v, Some(url)),
            None => match header_version(pattern, location) {
                Some(v) => found_with(r, v, location),
                None => match header_version(pattern, Some(final_url)) {
                    Some(v) => found_with(r, v, Some(final_url)),
                    None => r matches Err(CheckError::NoMatch),
                },
            },
        },
    }
}

/// What the `http_head` provider makes of the answer to its HEAD request.
/// Headers whose values are not visible ASCII count as absent.
pub fn http_head_outcome(url: &str, pattern: &str, content_disposition: Option<String>, location: Option<String>, final_url: String) -> (r: Result<CheckOutcome, CheckError>)
    ensures
        is_head_outcome(url@, pattern@, opt_view(content_disposition), opt_view(location), final_url@, r),
{
    match regex_check(pattern) {
        Some(e) => return Err(CheckError::Other(concat2("invalid regex: ", e.as_str()))),
        None => {},
    }
    match version_in(pattern, &content_disposition) {
        Some(v) => return Ok(found(v, Some(string_from_str(url)))),
        None => {},
    }
    match version_in(pattern, &location) {
        Some(v) => return Ok(found(v, opt_string(&location))),
        None => {},
    }
    let final_opt = Some(final_url);
    match version_in(pattern, &final_opt) {
        Some(v) => Ok(found(v, final_opt)),
        None => Err(CheckError::NoMatch),
    }
}

/// Whether the `redirect` provider falls back to a ranged GET: when the HEAD
/// request failed or was answered other than 2xx or 3xx.
pub fn head_needs_fallback(head_status: Option<u16>) -> (r: bool)
    ensures
        r == !(head_status matches Some(s) && 200 <= s <= 399),
{
    match head_status {
        Some(s) => !(200 <= s && s <= 399),
        None => true,
    }
}

/// What the `redirect` provider finds after following `url`: rate limited on
/// 429; else the version from the final URL, the `Content-Disposition` header
/// or the `Location` header, in that order, always with `url` itself as the
/// download URL (a redirect target may be a signed URL that expires).
pub open spec fn is_redirect_outcome(url: Seq<char>, pattern: Seq<char>, status: u16, retry_after: Option<String>, final_url: Seq<char>, disposition: Option<Seq<char>>, location: Option<Seq<char>>, r: Result<CheckOutcome, CheckError>) -> bool {
    if status == 429 {
        r matches Err(CheckError::RateLimited { retry_after: ra }) && ra == retry_after
    } else {
        match regex_compile_error(pattern) {
            Some(e) => is_invalid_regex(r, e),
            None => match header_version(pattern, Some(final_url)) {
                Some(v) => found_with(r, v, Some(url)),
                None => match header_version(pattern, disposition) {
                    Some(v) => found_with(r, v, Some(url)),
                    None => match header_version(pattern, location) {
                        Some(v) => found_with(r, v, Some(url)),
                        None => r matches Err(CheckError::NoMatch),
                    },
                },
            },
        }
    }
}

/// What the `redirect` provider makes of the answer it got.
pub fn redirect_outcome(url: &str, pattern: &str, status: u16, retry_after: Option<String>, final_url: String, content_disposition: Option<String>, location: Option<String>) -> (r: Result<CheckOutcome, CheckError>)
    ensures
        is_redirect_outcome(url@, pattern@, status, retry_after, final_url@, opt_view(content_disposition), opt_view(location), r),
{
    match check_rate_limit(status, retry_after) {
        Err(e) => return Err(e),
        Ok(()) => {},
    }
    match regex_check(pattern) {
        Some(e) => return Err(CheckError::Other(concat2("invalid regex: ", e.as_str()))),
        None => {},
    }
    let final_opt = Some(final_url);
    match version_in(pattern, &final_opt) {
        Some(v) => return Ok(found(v, Some(string_from_str(url)))),
        None => {},
    }
    match version_in(pattern, &content_disposition) {
        Some(v) => return Ok(found(v, Some(string_from_str(url)))),
        None => {},
    }
    match version_in(pattern, &location) {
        Some(v) => Ok(found(v, Some(string_from_str(url)))),
        None => Err(CheckError::NoMatch),
    }
}

/// Where a link points: an absolute `http(s)` link as it is, a root-relative
/// one resolved against the page URL (nothing when that fails), anything else
/// as it is.
pub open spec fn link_target(href: Seq<char>, base: Seq<char>) -> Option<Seq<char>> {
    if has_prefix(href, "http://"@) || has_prefix(href, "https://"@) {
        Some(href)
    } else if has_prefix(href, "/"@) {
        url_join_result(base, href)
    } else {
        Some(href)
    }
}

/// Try to extract the download URL from a link: resolves root-relative links
/// against the base page URL.
pub fn extract_href(href: &str, base_url: &str) -> (r: Option<String>)
    ensures
        opt_view(r) == link_target(href@, base_url@),
{
    if starts_with_str(href, "http://") || starts_with_str(href, "https://") {
        Some(string_from_str(href))
    } else if starts_with_str(href, "/") {
        url_join(base_url, href)
    } else {
        Some(string_from_str(href))
    }
}

/// The first link in which the regex's group 1 captures a version: the
/// version and the link.
pub open spec fn first_link_match(hrefs: Seq<Option<Seq<char>>>, pattern: Seq<char>) -> Option<(Seq<char>, Seq<char>)>
    decreases hrefs.len(),
{
    if hrefs.len() == 0 {
        None
    } else {
        match hrefs[0] {
            Some(h) => match capture_group_1(pattern, h) {
                Ok(Some(v)) => Some((v, h)),
                _ => first_link_match(hrefs.drop_first(), pattern),
            },
            None => first_link_match(hrefs.drop_first(), pattern),
        }
    }
}

/// The first text in which the regex's group 1 captures a version.
pub open spec fn first_text_match(texts: Seq<Seq<char>>, pattern: Seq<char>) -> Option<Seq<char>>
    decreases texts.len(),
{
    if texts.len() == 0 {
        None
    } else {
        match capture_group_1(pattern, texts[0]) {
            Ok(Some(v)) => Some(v),
            _ => first_text_match(texts.drop_first(), pattern),
        }
    }
}

/// Search links for hrefs matching the regex, returning both the version and
/// the link's target.
pub fn find_version_in_links(hrefs: &Vec<Option<String>>, pattern: &str, base_url: &str) -> (r: Option<CheckResult>)
    requires
        regex_compile_error(pattern@) is None,
    ensures
        match first_link_match(crate::outside_text::groups_view(hrefs@), pattern@) {
            Some((v, h)) => r matches Some(c) && found_with(Ok(CheckOutcome::Found(c)), v, link_target(h, base_url@)),
            None => r is None,
        },
{
    let ghost hs = crate::outside_text::groups_view(hrefs@);
    let mut i: usize = 0;
    proof {
        assert(hs.skip(0) =~= hs);
    }
    while i < hrefs.len()
        invariant
            i <= hrefs@.len(),
            hs == crate::outside_text::groups_view(hrefs@),
            regex_compile_error(pattern@) is None,
            first_link_match(hs, pattern@) == first_link_match(hs.skip(i as int), pattern@),
        decreases hrefs@.len() - i,
    {
        proof {
            assert(hs.skip(i as int).drop_first() =~= hs.skip(i + 1));
            assert(hs.skip(i as int)[0] == opt_view(hrefs@[i as int]));
        }
        match &hrefs[i] {
            Some(h) => match capture_first_group(pattern, h.as_str()) {
                Ok(Some(v)) => {
                    return Some(CheckResult {
                        version: v,
                        url: extract_href(h.as_str(), base_url),
                        sha256: None,
                        release_notes_url: None,
                        pre_release: false,
                        assets: Vec::new(),
                    });
                },
                _ => {},
            },
            None => {},
        }
        i = i + 1;
    }
    proof {
        assert(hs.skip(i as int).len() == 0);
    }
    None
}

fn version_in_texts(texts: &Vec<String>, pattern: &str) -> (r: Option<String>)
    requires
        regex_compile_error(pattern@) is None,
    ensures
        opt_view(r) == first_text_match(texts@.map_values(|s: String| s@), pattern@),
{
    let ghost ts = texts@.map_values(|s: String| s@);
    let mut i: usize = 0;
    proof {
        assert(ts.skip(0) =~= ts);
    }
    while i < texts.len()
        invariant
            i <= texts@.len(),
            ts == texts@.map_values(|s: String| s@),
            regex_compile_error(pattern@) is None,
            first_text_match(ts, pattern@) == first_text_match(ts.skip(i as int), pattern@),
        decreases texts@.len() - i,
    {
        proof {
            assert(ts.skip(i as int).drop_first() =~= ts.skip(i + 1));
            assert(ts.skip(i as int)[0] == texts@[i as int]@);
        }
        match capture_first_group(pattern, texts[i].as_str()) {
            Ok(Some(v)) => return Some(v),
            _ => {},
        }
        i = i + 1;
    }
    proof {
        assert(ts.skip(i as int).len() == 0);
    }
    None
}

/// The error of a scope selector that does not parse, if one is given.
pub open spec fn scope_error(css: Option<Seq<char>>) -> Option<Seq<char>> {
    match css {
        Some(c) => css_selector_error(c),
        None => None,
    }
}

/// What the `html_scrape` provider finds in a page (`base` is the page's URL
/// after redirects): first the links (inside the scope selector's elements,
/// if one is given), taking the version and the link's target; then the text
/// of the scope's elements; then the whole page body.
pub open spec fn is_scrape_outcome(body: Seq<char>, base: Seq<char>, pattern: Seq<char>, css: Option<Seq<char>>, r: Result<CheckOutcome, CheckError>) -> bool {
    match regex_compile_error(pattern) {
        Some(e) => is_invalid_regex(r, e),
        None => match scope_error(css) {
            Some(e) => r matches Err(CheckError::Other(m)) && m@ == "invalid CSS selector: "@ + e,
            None => match first_link_match(html_anchor_hrefs(body, css), pattern) {
                Some((v, h)) => found_with(r, v, link_target(h, base)),
                None => match (match css {
                    Some(c) => first_text_match(html_element_texts(body, c), pattern),
                    None => None,
                }) {
                    Some(v) => found_with(r, v, None),
                    None => match capture_group_1(pattern, body) {
                        Ok(Some(v)) => found_with(r, v, None),
                        _ => r matches Err(CheckError::NoMatch),
                    },
                },
            },
        },
    }
}

/// What the `html_scrape` provider makes of the page it fetched.
pub fn html_scrape_outcome(body: &str, final_url: &str, pattern: &str, css_selector: Option<&str>) -> (r: Result<CheckOutcome, CheckError>)
    ensures
        is_scrape_outcome(
            body@,
            final_url@,
            pattern@,
            match css_selector {
                Some(c) => Some(c@),
                None => None,
            },
            r,
        ),
{
    match regex_check(pattern) {
        Some(e) => return Err(CheckError::Other(concat2("invalid regex: ", e.as_str()))),
        None => {},
    }
    match css_selector {
        Some(c) => match css_check(c) {
            Some(e) => return Err(CheckError::Other(concat2("invalid CSS selector: ", e.as_str()))),
            None => {},
        },
        None => {},
    }
    let hrefs = anchor_hrefs(body, css_selector);
    match find_version_in_links(&hrefs, pattern, final_url) {
        Some(result) => return Ok(CheckOutcome::Found(result)),
        None => {},
    }
    match css_selector {
        Some(c) => {
            let texts = element_texts(body, c);
            match version_in_texts(&texts, pattern) {
                Some(v) => return Ok(found(v, None)),
                None => {},
            }
        },
        None => {},
    }
    match capture_first_group(pattern, body) {
        Ok(Some(v)) => Ok(found(v, None)),
        _ => Err(CheckError::NoMatch),
    }
}

/// What the browser does on the page before reading it.
#[derive(Debug)]
pub enum BrowserAction {
    /// Nothing: no `css_selector` is configured.
    Nothing,
    /// Evaluate this JavaScript (a selector written `js:...`).
    Evaluate(String),
    /// Click the element this CSS selector finds.
    Click(String),
}

/// What the browser does with the configured `css_selector`.
pub fn browser_action(css_selector: &Option<String>) -> (r: BrowserAction)
    ensures
        match css_selector {
            None => r is Nothing,
            Some(s) => if has_prefix(s@, "js:"@) {
                r matches BrowserAction::Evaluate(js) && js@ == s@.skip(3)
            } else {
                r matches BrowserAction::Click(sel) && sel@ == s@
            },
        },
{
    proof {
        reveal_strlit("js:");
    }
    match css_selector {
        None => BrowserAction::Nothing,
        Some(s) => {
            if starts_with_str(s.as_str(), "js:") {
                let js = crate::text::strip_prefix_or_self(s.as_str(), "js:");
                BrowserAction::Evaluate(js)
            } else {
                BrowserAction::Click(string_from_str(s.as_str()))
            }
        },
    }
}

/// Where a link on a rendered page points: an absolute `http(s)` link as it
/// is, anything else resolved against the page URL, or as it is when that fails.
pub open spec fn asset_target(href: Seq<char>, page: Seq<char>) -> Seq<char> {
    if has_prefix(href, "http://"@) || has_prefix(href, "https://"@) {
        href
    } else {
        match url_join_result(page, href) {
            Some(u) => u,
            None => href,
        }
    }
}

/// The links of a rendered page that the regex matches, as downloadable
/// assets: the name after the last `/` of the target, the target, size 0.
pub open spec fn page_assets(hrefs: Seq<Option<Seq<char>>>, pattern: Seq<char>, page: Seq<char>) -> Seq<(Seq<char>, Seq<char>, u64)>
    decreases hrefs.len(),
{
    if hrefs.len() == 0 {
        Seq::empty()
    } else {
        let rest = page_assets(hrefs.drop_last(), pattern, page);
        match hrefs.last() {
            Some(h) => if regex_match_groups(pattern, h) is Some {
                let t = asset_target(h, page);
                rest.push((last_piece(t, '/'), t, 0u64))
            } else {
                rest
            },
            None => rest,
        }
    }
}

/// What the `browser_scrape` provider finds in a rendered page of `url`: the
/// version from group 1 of the regex, the matching links as assets, and the
/// first of them as the download URL.
pub open spec fn is_browser_outcome(url: Seq<char>, pattern: Seq<char>, content: Seq<char>, r: Result<CheckOutcome, CheckError>) -> bool {
    match regex_compile_error(pattern) {
        Some(e) => is_invalid_regex(r, e),
        None => match capture_group_1(pattern, content) {
            Ok(Some(v)) => {
                let assets = page_assets(html_anchor_hrefs(content, None), pattern, url);
                r matches Ok(CheckOutcome::Found(c)) && c.version@ == v && assets_view(c.assets@)
                    == assets && opt_view(c.url) == (if assets.len() > 0 {
                    Some(assets[0].1)
                } else {
                    None
                }) && c.sha256 is None && c.release_notes_url is None && !c.pre_release
            },
            _ => r matches Err(CheckError::NoMatch),
        },
    }
}

fn asset_url(href: &str, page: &str) -> (r: String)
    ensures
        r@ == asset_target(href@, page@),
{
    if starts_with_str(href, "http://") || starts_with_str(href, "https://") {
        string_from_str(href)
    } else {
        match url_join(page, href) {
            Some(u) => u,
            None => string_from_str(href),
        }
    }
}

/// What the `browser_scrape` provider makes of the rendered page of `url`.
pub fn browser_outcome(url: &str, pattern: &str, content: &str) -> (r: Result<CheckOutcome, CheckError>)
    ensures
        is_browser_outcome(url@, pattern@, content@, r),
{
    match regex_check(pattern) {
        Some(e) => return Err(CheckError::Other(concat2("invalid regex: ", e.as_str()))),
        None => {},
    }
    let version = match capture_first_group(pattern, content) {
        Ok(Some(v)) => v,
        _ => return Err(CheckError::NoMatch),
    };
    let hrefs = anchor_hrefs(content, None);
    let ghost hs = crate::outside_text::groups_view(hrefs@);
    let mut assets: Vec<ReleaseAsset> = Vec::new();
    let mut i: usize = 0;
    while i < hrefs.len()
        invariant
            i <= hrefs@.len(),
            hs == crate::outside_text::groups_view(hrefs@),
            regex_compile_error(pattern@) is None,
            assets_view(assets@) == page_assets(hs.take(i as int), pattern@, url@),
        decreases hrefs@.len() - i,
    {
        proof {
            assert(hs.take(i + 1).drop_last() =~= hs.take(i as int));
            assert(hs.take(i + 1).last() == opt_view(hrefs@[i as int]));
        }
        match &hrefs[i] {
            Some(h) => {
                let matched = match regex_captures(pattern, h.as_str()) {
                    Ok(Some(_)) => true,
                    _ => false,
                };
                if matched {
                    let target = asset_url(h.as_str(), url);
                    let name = after_last(target.as_str(), '/');
                    let ghost before = assets_view(assets@);
                    assets.push(ReleaseAsset { name, url: target, size: 0 });
                    proof {
                        assert(assets_view(assets@) =~= before.push((name@, target@, 0u64)));
                    }
                }
            },
            None => {},
        }
        i = i + 1;
    }
    proof {
        assert(hs.take(hrefs@.len() as int) =~= hs);
    }
    let primary: Option<String> = if assets.len() > 0 {
        Some(string_from_str(assets[0].url.as_str()))
    } else {
        None
    };
    proof {
        if assets@.len() > 0 {
            assert(assets_view(assets@)[0] == (assets@[0].name@, assets@[0].url@, assets@[0].size));
        }
    }
    Ok(CheckOutcome::Found(CheckResult {
        version,
        url: primary,
        sha256: None,
        release_notes_url: None,
        pre_release: false,
        assets,
    }))
}

/// The version of an executable as the `pe_download` provider reads it: the
/// image and OS version numbers of the optional header, dotted.
pub open spec fn pe_version_text(f: (u16, u16, u16, u16)) -> Seq<char> {
    decimal(f.0 as nat) + "."@ + decimal(f.1 as nat) + "."@ + decimal(f.2 as nat) + "."@ + decimal(
        f.3 as nat,
    )
}

/// What the `pe_download` provider finds in the executable it downloaded from
/// `url`: the version from the PE optional header, with `url` as the download URL.
pub open spec fn is_pe_outcome(url: Seq<char>, bytes: Seq<u8>, r: Result<CheckOutcome, CheckError>) -> bool {
    match pe_version_fields(bytes) {
        Err(e) => r matches Err(CheckError::PeParse(m)) && m@ == e,
        Ok(None) => r matches Err(CheckError::PeParse(m)) && m@ == "no optional header in PE"@,
        Ok(Some(f)) => found_with(r, pe_version_text(f), Some(url)),
    }
}

/// What the `pe_download` provider makes of the executable it downloaded.
pub fn pe_outcome(url: &str, bytes: &[u8]) -> (r: Result<CheckOutcome, CheckError>)
    ensures
        is_pe_outcome(url@, bytes@, r),
{
    match pe_versions(bytes) {
        Err(e) => Err(CheckError::PeParse(e)),
        Ok(None) => Err(CheckError::PeParse(string_from_str("no optional header in PE"))),
        Ok(Some((a, b, c, d))) => {
            let mut out: Vec<char> = Vec::new();
            push_decimal(&mut out, a as u64);
            push_str_chars(&mut out, ".");
            push_decimal(&mut out, b as u64);
            push_str_chars(&mut out, ".");
            push_decimal(&mut out, c as u64);
            push_str_chars(&mut out, ".");
            push_decimal(&mut out, d as u64);
            proof {
                assert(out@ =~= pe_version_text((a, b, c, d)));
            }
            Ok(found(string_from_chars(out.as_slice()), Some(string_from_str(url))))
        },
    }
}

} // verus!
