//! Which provider checks a manifest, what it needs from the manifest, and
//! what the GitHub and GitLab providers make of the APIs' answers.
use vstd::prelude::*;
use crate::manifest::{Checkver, Manifest};
use crate::numeric::{decimal, push_decimal};
use crate::outside_text::{opt_view, regex_captures, regex_compile_error, regex_match_groups};
use crate::providers::{
    check_rate_limit, found, manual_check, required, static_check, CheckError, CheckOutcome,
    CheckResult, ReleaseAsset,
};
use crate::text::{
    concat2, contains_char, has_char, push_str_chars, str_equals, strip_prefix_or_self,
    string_from_chars, string_from_str, strip_char, without_prefix,
};
use crate::web::{canonical_reason, http_canonical_reason};

verus! {

/// The providers that fetch something to find a version.
#[derive(Debug, Clone, Copy, PartialEq, Eq, Structural)]
pub enum ProviderKind {
    Github,
    Gitlab,
    DirectUrl,
    HttpHead,
    HtmlScrape,
    BrowserScrape,
    PeDownload,
    Redirect,
}

/// How a manifest's version check goes: settled without fetching anything,
/// or by a provider that fetches.
#[derive(Debug)]
pub enum CheckPlan {
    Done(Result<CheckOutcome, CheckError>),
    Fetch(ProviderKind),
}

/// The provider that fetches for a `provider` name, if it is one of those.
pub open spec fn fetching_provider(name: Seq<char>) -> Option<ProviderKind> {
    if name == "github"@ {
        Some(ProviderKind::Github)
    } else if name == "gitlab"@ {
        Some(ProviderKind::Gitlab)
    } else if name == "direct_url"@ {
        Some(ProviderKind::DirectUrl)
    } else if name == "http_head"@ {
        Some(ProviderKind::HttpHead)
    } else if name == "html_scrape"@ {
        Some(ProviderKind::HtmlScrape)
    } else if name == "browser_scrape"@ {
        Some(ProviderKind::BrowserScrape)
    } else if name == "pe_download"@ {
        Some(ProviderKind::PeDownload)
    } else if name == "redirect"@ {
        Some(ProviderKind::Redirect)
    } else {
        None
    }
}

/// The plan of a manifest's check: skipped without a `[checkver]` section;
/// skipped for the `manual` provider; settled at once for the `static` provider and for an unknown
/// one; otherwise fetched by its provider.
pub open spec fn is_check_plan(m: Manifest, p: CheckPlan) -> bool {
    match m.checkver {
        None => p matches CheckPlan::Done(Ok(CheckOutcome::Skipped { reason })) && reason@
            == "no [checkver] section"@,
        Some(cv) => match fetching_provider(cv.provider@) {
            Some(k) => p == CheckPlan::Fetch(k),
            None => if cv.provider@ == "manual"@ {
                p matches CheckPlan::Done(Ok(CheckOutcome::Skipped { reason })) && reason@
                    == "manual: requires human update"@
            } else if cv.provider@ == "static"@ {
                p matches CheckPlan::Done(r) && match cv.version {
                    Some(v) => r matches Ok(o) && crate::providers::found_version_only(o, v@),
                    None => r matches Err(CheckError::Other(msg)) && msg@ == m.id@
                        + ": static provider requires a 'version' field in [checkver]"@,
                }
            } else {
                p matches CheckPlan::Done(Err(CheckError::Other(msg))) && msg@ == "unknown provider: "@
                    + cv.provider@
            },
        },
    }
}

fn provider_kind(name: &str) -> (r: Option<ProviderKind>)
    ensures
        r == fetching_provider(name@),
{
    if str_equals(name, "github") {
        Some(ProviderKind::Github)
    } else if str_equals(name, "gitlab") {
        Some(ProviderKind::Gitlab)
    } else if str_equals(name, "direct_url") {
        Some(ProviderKind::DirectUrl)
    } else if str_equals(name, "http_head") {
        Some(ProviderKind::HttpHead)
    } else if str_equals(name, "html_scrape") {
        Some(ProviderKind::HtmlScrape)
    } else if str_equals(name, "browser_scrape") {
        Some(ProviderKind::BrowserScrape)
    } else if str_equals(name, "pe_download") {
        Some(ProviderKind::PeDownload)
    } else if str_equals(name, "redirect") {
        Some(ProviderKind::Redirect)
    } else {
        None
    }
}

/// Run the appropriate check for a manifest based on its `checkver.provider`
/// field: how the check goes (see [`is_check_plan`]).
pub fn plan_check(manifest: &Manifest) -> (r: CheckPlan)
    ensures
        is_check_plan(*manifest, r),
{
    match &manifest.checkver {
        None => CheckPlan::Done(Ok(CheckOutcome::Skipped { reason: string_from_str("no [checkver] section") })),
        Some(cv) => match provider_kind(cv.provider.as_str()) {
            Some(k) => CheckPlan::Fetch(k),
            None => {
                if str_equals(cv.provider.as_str(), "manual") {
                    CheckPlan::Done(Ok(manual_check(manifest)))
                } else if str_equals(cv.provider.as_str(), "static") {
                    CheckPlan::Done(static_check(manifest, cv))
                } else {
                    CheckPlan::Done(Err(CheckError::Other(concat2("unknown provider: ", cv.provider.as_str()))))
                }
            },
        },
    }
}

/// The `url` and `regex` of a `[checkver]` section, each required in that order.
pub fn url_and_regex(checkver: &Checkver) -> (r: Result<(String, String), CheckError>)
    ensures
        match (checkver.url, checkver.regex) {
            (Some(u), Some(x)) => r matches Ok((a, b)) && a@ == u@ && b@ == x@,
            (None, _) => r matches Err(CheckError::MissingConfig(m)) && m@ == "url"@,
            (Some(_), None) => r matches Err(CheckError::MissingConfig(m)) && m@ == "regex"@,
        },
{
    let url = match required(&checkver.url, "url") {
        Ok(u) => u,
        Err(e) => return Err(e),
    };
    let regex = match required(&checkver.regex, "regex") {
        Ok(x) => x,
        Err(e) => return Err(e),
    };
    Ok((url, regex))
}

/// The `owner` and `repo` of a `[checkver]` section, each required in that order.
pub fn owner_and_repo(checkver: &Checkver) -> (r: Result<(String, String), CheckError>)
    ensures
        match (checkver.owner, checkver.repo) {
            (Some(o), Some(p)) => r matches Ok((a, b)) && a@ == o@ && b@ == p@,
            (None, _) => r matches Err(CheckError::MissingConfig(m)) && m@ == "owner"@,
            (Some(_), None) => r matches Err(CheckError::MissingConfig(m)) && m@ == "repo"@,
        },
{
    let owner = match required(&checkver.owner, "owner") {
        Ok(o) => o,
        Err(e) => return Err(e),
    };
    let repo = match required(&checkver.repo, "repo") {
        Ok(p) => p,
        Err(e) => return Err(e),
    };
    Ok((owner, repo))
}

/// An HTTP status as `http` displays it: the code, a space, and the canonical
/// reason (`<unknown status code>` when there is none).
pub open spec fn status_text(code: u16) -> Seq<char> {
    decimal(code as nat) + " "@ + match http_canonical_reason(code) {
        Some(r) => r,
        None => "<unknown status code>"@,
    }
}

/// An HTTP status as `http` displays it (`404 Not Found`).
pub fn status_display(code: u16) -> (r: String)
    requires
        100 <= code <= 999,
    ensures
        r@ == status_text(code),
{
    let mut out: Vec<char> = Vec::new();
    push_decimal(&mut out, code as u64);
    push_str_chars(&mut out, " ");
    match canonical_reason(code) {
        Some(reason) => push_str_chars(&mut out, reason.as_str()),
        None => push_str_chars(&mut out, "<unknown status code>"),
    }
    string_from_chars(out.as_slice())
}

/// What an API's answer means before its body is read: rate limited on 429,
/// failed on any other status outside 2xx, fine otherwise.
pub open spec fn is_api_status_check(api: Seq<char>, status: u16, retry_after: Option<String>, owner: Seq<char>, repo: Seq<char>, r: Result<(), CheckError>) -> bool {
    if status == 429 {
        r matches Err(CheckError::RateLimited { retry_after: ra }) && ra == retry_after
    } else if 200 <= status <= 299 {
        r is Ok
    } else {
        r matches Err(CheckError::Other(m)) && m@ == api + " API returned "@ + status_text(status)
            + " for "@ + owner + "/"@ + repo
    }
}

/// Checks the status of a GitHub or GitLab API answer (`api` names the API).
pub fn api_status_check(api: &str, status: u16, retry_after: Option<String>, owner: &str, repo: &str) -> (r: Result<(), CheckError>)
    requires
        100 <= status <= 999,
    ensures
        is_api_status_check(api@, status, retry_after, owner@, repo@, r),
{
    match check_rate_limit(status, retry_after) {
        Err(e) => return Err(e),
        Ok(()) => {},
    }
    if 200 <= status && status <= 299 {
        return Ok(());
    }
    let mut out: Vec<char> = Vec::new();
    push_str_chars(&mut out, api);
    push_str_chars(&mut out, " API returned ");
    let s = status_display(status);
    push_str_chars(&mut out, s.as_str());
    push_str_chars(&mut out, " for ");
    push_str_chars(&mut out, owner);
    push_str_chars(&mut out, "/");
    push_str_chars(&mut out, repo);
    Err(CheckError::Other(string_from_chars(out.as_slice())))
}

/// A downloadable asset of a GitHub release, as the API describes it.
#[derive(Debug, Clone)]
pub struct GithubAsset {
    pub browser_download_url: String,
    pub name: String,
    pub size: u64,
}

/// A GitHub release, as the API describes it.
#[derive(Debug, Clone)]
pub struct GithubRelease {
    pub tag_name: String,
    pub prerelease: bool,
    pub html_url: String,
    pub assets: Vec<GithubAsset>,
}

/// The GitHub API URL of a repository's latest release, or of its newest
/// release of any kind when pre-releases count.
pub open spec fn github_releases_endpoint(owner: Seq<char>, repo: Seq<char>, include_pre_release: bool) -> Seq<char> {
    "https://api.github.com/repos/"@ + owner + "/"@ + repo + if include_pre_release {
        "/releases?per_page=1"@
    } else {
        "/releases/latest"@
    }
}

/// The GitHub API URL to ask for a repository's release.
pub fn github_releases_url(owner: &str, repo: &str, include_pre_release: bool) -> (r: String)
    ensures
        r@ == github_releases_endpoint(owner@, repo@, include_pre_release),
{
    let mut out: Vec<char> = Vec::new();
    push_str_chars(&mut out, "https://api.github.com/repos/");
    push_str_chars(&mut out, owner);
    push_str_chars(&mut out, "/");
    push_str_chars(&mut out, repo);
    if include_pre_release {
        push_str_chars(&mut out, "/releases?per_page=1");
    } else {
        push_str_chars(&mut out, "/releases/latest");
    }
    proof {
        assert(out@ =~= github_releases_endpoint(owner@, repo@, include_pre_release));
    }
    string_from_chars(out.as_slice())
}

/// The tag prefix stripped from release tags (`v` unless configured).
pub open spec fn tag_prefix_of(cv: Checkver) -> Seq<char> {
    match cv.tag_prefix {
        Some(p) => p@,
        None => "v"@,
    }
}

/// The regex release assets are filtered by, if one is configured.
pub open spec fn asset_filter_of(cv: Checkver) -> Option<Seq<char>> {
    match cv.autoupdate {
        Some(au) => opt_view(au.asset_filter),
        None => None,
    }
}

/// Whether an asset name passes the filter: always without a filter or with
/// one that does not compile; else when the regex matches the name.
pub open spec fn asset_kept(filter: Option<Seq<char>>, name: Seq<char>) -> bool {
    match filter {
        None => true,
        Some(p) => match regex_compile_error(p) {
            Some(_) => true,
            None => regex_match_groups(p, name) is Some,
        },
    }
}

/// The assets that pass the filter, as name, download URL and size, in order.
pub open spec fn kept_assets(filter: Option<Seq<char>>, assets: Seq<GithubAsset>) -> Seq<(Seq<char>, Seq<char>, u64)>
    decreases assets.len(),
{
    if assets.len() == 0 {
        Seq::empty()
    } else {
        let rest = kept_assets(filter, assets.drop_last());
        let a = assets.last();
        if asset_kept(filter, a.name@) {
            rest.push((a.name@, a.browser_download_url@, a.size))
        } else {
            rest
        }
    }
}

/// The name, URL and size of release assets.
pub open spec fn assets_view(v: Seq<ReleaseAsset>) -> Seq<(Seq<char>, Seq<char>, u64)> {
    v.map_values(|a: ReleaseAsset| (a.name@, a.url@, a.size))
}

/// What the GitHub provider finds in a release: the tag without its prefix as
/// the version, the assets that pass the filter, the first of them (or else
/// the first asset) as the download URL, the release page, and whether it is a
/// pre-release.
pub open spec fn is_github_result(cv: Checkver, rel: GithubRelease, c: CheckResult) -> bool {
    let kept = kept_assets(asset_filter_of(cv), rel.assets@);
    &&& c.version@ == without_prefix(rel.tag_name@, tag_prefix_of(cv))
    &&& assets_view(c.assets@) == kept
    &&& opt_view(c.url) == (if kept.len() > 0 {
        Some(kept[0].1)
    } else if rel.assets@.len() > 0 {
        Some(rel.assets@[0].browser_download_url@)
    } else {
        None
    })
    &&& c.sha256 is None
    &&& opt_view(c.release_notes_url) == Some(rel.html_url@)
    &&& c.pre_release == rel.prerelease
}

fn filtered_assets(filter: Option<&str>, assets: &Vec<GithubAsset>) -> (r: Vec<ReleaseAsset>)
    ensures
        assets_view(r@) == kept_assets(
            match filter {
                Some(p) => Some(p@),
                None => None,
            },
            assets@,
        ),
{
    let ghost f = match filter {
        Some(p) => Some(p@),
        None => None,
    };
    let usable: Option<&str> = match filter {
        Some(p) => match crate::outside_text::regex_check(p) {
            Some(_) => None,
            None => Some(p),
        },
        None => None,
    };
    let mut out: Vec<ReleaseAsset> = Vec::new();
    let mut i: usize = 0;
    while i < assets.len()
        invariant
            i <= assets@.len(),
            f == match filter {
                Some(p) => Some(p@),
                None => None::<Seq<char>>,
            },
            match usable {
                Some(p) => f == Some(p@) && regex_compile_error(p@) is None,
                None => f is None || (f matches Some(p) && regex_compile_error(p) is Some),
            },
            assets_view(out@) == kept_assets(f, assets@.take(i as int)),
        decreases assets@.len() - i,
    {
        proof {
            assert(assets@.take(i + 1).drop_last() =~= assets@.take(i as int));
        }
        let a = &assets[i];
        let keep = match usable {
            Some(p) => match regex_captures(p, a.name.as_str()) {
                Ok(Some(_)) => true,
                _ => false,
            },
            None => true,
        };
        if keep {
            let ghost before = assets_view(out@);
            out.push(ReleaseAsset {
                name: string_from_str(a.name.as_str()),
                url: string_from_str(a.browser_download_url.as_str()),
                size: a.size,
            });
            proof {
                assert(assets_view(out@) =~= before.push((a.name@, a.browser_download_url@, a.size)));
            }
        }
        i = i + 1;
    }
    proof {
        assert(assets@.take(assets@.len() as int) =~= assets@);
    }
    out
}

/// What the GitHub provider makes of the release it was given (the latest
/// release, or the newest one when pre-releases count): `NoMatch` without one.
pub fn github_outcome(checkver: &Checkver, release: Option<GithubRelease>) -> (r: Result<CheckOutcome, CheckError>)
    ensures
        match release {
            None => r matches Err(CheckError::NoMatch),
            Some(rel) => r matches Ok(CheckOutcome::Found(c)) && is_github_result(*checkver, rel, c),
        },
{
    let rel = match release {
        Some(rel) => rel,
        None => return Err(CheckError::NoMatch),
    };
    let prefix: &str = match &checkver.tag_prefix {
        Some(p) => p.as_str(),
        None => "v",
    };
    let version = strip_prefix_or_self(rel.tag_name.as_str(), prefix);
    let filter: Option<&str> = match &checkver.autoupdate {
        Some(au) => match &au.asset_filter {
            Some(p) => Some(p.as_str()),
            None => None,
        },
        None => None,
    };
    let assets = filtered_assets(filter, &rel.assets);
    let url: Option<String> = if assets.len() > 0 {
        Some(string_from_str(assets[0].url.as_str()))
    } else if rel.assets.len() > 0 {
        Some(string_from_str(rel.assets[0].browser_download_url.as_str()))
    } else {
        None
    };
    proof {
        if assets@.len() > 0 {
            assert(assets_view(assets@)[0] == (assets@[0].name@, assets@[0].url@, assets@[0].size));
        }
    }
    Ok(CheckOutcome::Found(CheckResult {
        version,
        url,
        sha256: None,
        release_notes_url: Some(rel.html_url),
        pre_release: rel.prerelease,
        assets,
    }))
}

/// The GitLab API URL listing a project's tags, newest version first: one
/// when pre-releases count, twenty to find a stable one otherwise.
pub open spec fn gitlab_tags_endpoint(owner: Seq<char>, repo: Seq<char>, include_pre_release: bool) -> Seq<char> {
    "https://gitlab.com/api/v4/projects/"@ + owner + "%2F"@ + repo + "/repository/tags?per_page="@
        + if include_pre_release {
        "1"@
    } else {
        "20"@
    } + "&order_by=version"@
}

/// The GitLab API URL to ask for a project's tags.
pub fn gitlab_tags_url(owner: &str, repo: &str, include_pre_release: bool) -> (r: String)
    ensures
        r@ == gitlab_tags_endpoint(owner@, repo@, include_pre_release),
{
    let mut out: Vec<char> = Vec::new();
    push_str_chars(&mut out, "https://gitlab.com/api/v4/projects/");
    push_str_chars(&mut out, owner);
    push_str_chars(&mut out, "%2F");
    push_str_chars(&mut out, repo);
    push_str_chars(&mut out, "/repository/tags?per_page=");
    if include_pre_release {
        push_str_chars(&mut out, "1");
    } else {
        push_str_chars(&mut out, "20");
    }
    push_str_chars(&mut out, "&order_by=version");
    proof {
        assert(out@ =~= gitlab_tags_endpoint(owner@, repo@, include_pre_release));
    }
    string_from_chars(out.as_slice())
}

/// The version a tag names: the tag without a leading `v`.
pub open spec fn tag_version(tag: Seq<char>) -> Seq<char> {
    strip_char(tag, 'v')
}

/// The first tag whose version has no `-` (no pre-release part).
pub open spec fn first_stable_tag(tags: Seq<Seq<char>>) -> Option<Seq<char>>
    decreases tags.len(),
{
    if tags.len() == 0 {
        None
    } else if !has_char(tag_version(tags[0]), '-') {
        Some(tags[0])
    } else {
        first_stable_tag(tags.drop_first())
    }
}

/// The tag the GitLab provider picks, and whether it is a pre-release: with
/// pre-releases the first tag; without, the first stable tag.
pub open spec fn gitlab_choice(tags: Seq<Seq<char>>, include_pre_release: bool) -> Option<(Seq<char>, bool)> {
    if include_pre_release {
        if tags.len() > 0 {
            Some((tags[0], has_char(tag_version(tags[0]), '-')))
        } else {
            None
        }
    } else {
        match first_stable_tag(tags) {
            Some(t) => Some((t, false)),
            None => None,
        }
    }
}

/// The page of a GitLab tag.
pub open spec fn gitlab_tag_page(owner: Seq<char>, repo: Seq<char>, tag: Seq<char>) -> Seq<char> {
    "https://gitlab.com/"@ + owner + "/"@ + repo + "/-/tags/"@ + tag
}

fn tag_version_of(tag: &str) -> (r: String)
    ensures
        r@ == tag_version(tag@),
{
    let v = crate::text::chars_of(tag);
    if v.len() > 0 && v[0] == 'v' {
        let rest = crate::text::copy_range(v.as_slice(), 1, v.len());
        proof {
            assert(v@.subrange(1, v@.len() as int) =~= tag@.drop_first());
        }
        string_from_chars(rest.as_slice())
    } else {
        string_from_chars(v.as_slice())
    }
}

fn first_stable_index(tags: &Vec<String>) -> (r: Option<usize>)
    ensures
        match first_stable_tag(tags@.map_values(|t: String| t@)) {
            Some(t) => r matches Some(i) && i < tags@.len() && tags@[i as int]@ == t,
            None => r is None,
        },
{
    let ghost names = tags@.map_values(|t: String| t@);
    let mut i: usize = 0;
    proof {
        assert(names.skip(0) =~= names);
    }
    while i < tags.len()
        invariant
            i <= tags@.len(),
            names == tags@.map_values(|t: String| t@),
            first_stable_tag(names) == first_stable_tag(names.skip(i as int)),
        decreases tags@.len() - i,
    {
        proof {
            assert(names.skip(i as int).drop_first() =~= names.skip(i + 1));
            assert(names.skip(i as int)[0] == tags@[i as int]@);
        }
        let v = tag_version_of(tags[i].as_str());
        if !contains_char(v.as_str(), '-') {
            return Some(i);
        }
        i = i + 1;
    }
    proof {
        assert(names.skip(i as int).len() == 0);
    }
    None
}

/// What the GitLab provider makes of the tag names it listed.
pub fn gitlab_outcome(owner: &str, repo: &str, include_pre_release: bool, tags: &Vec<String>) -> (r: Result<CheckOutcome, CheckError>)
    ensures
        match gitlab_choice(tags@.map_values(|t: String| t@), include_pre_release) {
            None => r matches Err(CheckError::NoMatch),
            Some((tag, pre)) => r matches Ok(CheckOutcome::Found(c)) && c.version@ == tag_version(tag)
                && c.url is None && c.sha256 is None && opt_view(c.release_notes_url) == Some(
                gitlab_tag_page(owner@, repo@, tag),
            ) && c.pre_release == pre && c.assets@.len() == 0,
        },
{
    let ghost names = tags@.map_values(|t: String| t@);
    let chosen: Option<(usize, bool)> = if include_pre_release {
        if tags.len() > 0 {
            let v = tag_version_of(tags[0].as_str());
            Some((0, contains_char(v.as_str(), '-')))
        } else {
            None
        }
    } else {
        match first_stable_index(tags) {
            Some(i) => Some((i, false)),
            None => None,
        }
    };
    match chosen {
        None => Err(CheckError::NoMatch),
        Some((k, pre)) => {
            let tag = tags[k].as_str();
            let version = tag_version_of(tag);
            let mut page: Vec<char> = Vec::new();
            push_str_chars(&mut page, "https://gitlab.com/");
            push_str_chars(&mut page, owner);
            push_str_chars(&mut page, "/");
            push_str_chars(&mut page, repo);
            push_str_chars(&mut page, "/-/tags/");
            push_str_chars(&mut page, tag);
            proof {
                assert(page@ =~= gitlab_tag_page(owner@, repo@, tag@));
            }
            Ok(CheckOutcome::Found(CheckResult {
                version,
                url: None,
                sha256: None,
                release_notes_url: Some(string_from_chars(page.as_slice())),
                pre_release: pre,
                assets: Vec::new(),
            }))
        },
    }
}

} // verus!
