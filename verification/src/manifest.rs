//! The manifest format: one software package per file.
use vstd::prelude::*;

verus! {

/// A complete manifest file representing one software package.
#[derive(Debug, Clone)]
pub struct Manifest {
    pub id: String,
    pub manifest_version: u32,
    pub name: String,
    /// When true, the checker and compiler skip this manifest entirely.
    pub disabled: bool,
    pub description: Option<String>,
    pub publisher: Option<String>,
    pub homepage: Option<String>,
    pub category: String,
    /// The package type (`type` in the file).
    pub package_type: String,
    pub slug: String,
    pub tags: Vec<String>,
    pub aliases: Vec<String>,
    pub license: Option<String>,
    /// Icon reference: resolves to `assets/icons/{value}.png`.
    /// Falls back to publisher-derived slug if not set.
    pub icon: Option<String>,
    pub detection: Option<Detection>,
    pub install: Install,
    pub checkver: Option<Checkver>,
    pub hardware: Option<Hardware>,
    pub backup: Option<Backup>,
    pub dependencies: Option<Dependencies>,
}

/// How an installed package is detected.
#[derive(Debug, Clone)]
pub struct Detection {
    pub method: String,
    pub path: Option<String>,
    pub registry_key: Option<String>,
    pub registry_value: Option<String>,
    pub version_regex: Option<String>,
    pub product_code: Option<String>,
    pub upgrade_code: Option<String>,
    pub inf_provider: Option<String>,
    pub device_class: Option<String>,
    pub inf_name: Option<String>,
    pub file_version: Option<bool>,
    pub fallback_path: Option<String>,
    pub fallback_method: Option<String>,
}

/// How a package is installed.
#[derive(Debug, Clone)]
pub struct Install {
    /// Installer framework: `inno_setup`, `nsis`, `msi`, `exe`, `download_only`.
    pub method: String,
    /// Whether the download is a zip containing the installer.
    pub zip_wrapped: bool,
    /// Subfolder inside the ZIP to find the installer.
    pub zip_inner_path: Option<String>,
    pub scope: Option<String>,
    pub elevation: Option<String>,
    /// Installer switches by name (each name at most once), as a list of
    /// pairs rather than a `String`-keyed `HashMap`, of which Verus proves
    /// nothing.
    pub switches: Vec<(String, String)>,
    pub exit_codes: Vec<i32>,
    pub success_codes: Vec<i32>,
}

/// How new versions are discovered.
#[derive(Debug, Clone)]
pub struct Checkver {
    pub provider: String,
    pub owner: Option<String>,
    pub repo: Option<String>,
    pub url: Option<String>,
    pub regex: Option<String>,
    pub version_format: Option<String>,
    pub include_pre_release: bool,
    pub css_selector: Option<String>,
    /// Tag prefix for GitHub/GitLab releases. Default: "v".
    pub tag_prefix: Option<String>,
    /// The fixed version reported by the `static` provider.
    pub version: Option<String>,
    pub hash: Option<HashConfig>,
    pub autoupdate: Option<Autoupdate>,
}

/// Where the SHA256 of a download comes from.
#[derive(Debug, Clone)]
pub struct HashConfig {
    pub url: Option<String>,
    pub regex: Option<String>,
    pub jsonpath: Option<String>,
}

/// How the download URL of a discovered version is built.
#[derive(Debug, Clone)]
pub struct Autoupdate {
    pub url: Option<String>,
    /// Named download URL resolver for vendors with non-standard URL generation.
    pub resolver: Option<String>,
    /// Extra parameters passed to the resolver (each name at most once).
    pub resolver_args: Vec<(String, String)>,
    pub hash: Option<HashConfig>,
    /// Regex filter for GitHub release assets.
    pub asset_filter: Option<String>,
    /// Skip browser user-agent for downloads.
    pub skip_browser_ua: bool,
}

/// Hardware a driver package serves.
#[derive(Debug, Clone)]
pub struct Hardware {
    pub device_class: Option<String>,
    pub inf_provider: Option<String>,
    pub vid_pid: Vec<String>,
}

/// Paths to back up.
#[derive(Debug, Clone)]
pub struct Backup {
    pub config_paths: Vec<String>,
}

/// Packages this package depends on.
#[derive(Debug, Clone)]
pub struct Dependencies {
    pub requires: Vec<String>,
}

/// The views of a list of name/value pairs.
pub open spec fn pairs_view(v: Seq<(String, String)>) -> Seq<(Seq<char>, Seq<char>)> {
    v.map_values(|p: (String, String)| (p.0@, p.1@))
}

/// Whether no name occurs twice among the pairs.
pub open spec fn distinct_names(v: Seq<(Seq<char>, Seq<char>)>) -> bool {
    forall|i: int, j: int| 0 <= i < j < v.len() ==> v[i].0 != v[j].0
}

/// The value of the first pair with the given name.
pub open spec fn lookup(v: Seq<(Seq<char>, Seq<char>)>, name: Seq<char>) -> Option<Seq<char>>
    decreases v.len(),
{
    if v.len() == 0 {
        None
    } else if v[0].0 == name {
        Some(v[0].1)
    } else {
        lookup(v.drop_first(), name)
    }
}

/// Whether the download should skip the browser user-agent, as the
/// `[checkver.autoupdate]` section says (false when it is absent).
pub open spec fn skips_browser_ua(m: Manifest) -> bool {
    match m.checkver {
        Some(cv) => match cv.autoupdate {
            Some(au) => au.skip_browser_ua,
            None => false,
        },
        None => false,
    }
}

impl Manifest {
    /// Whether this manifest's download should skip the browser user-agent.
    pub fn skip_browser_ua(&self) -> (r: bool)
        ensures
            r == skips_browser_ua(*self),
    {
        match &self.checkver {
            Some(cv) => match &cv.autoupdate {
                Some(au) => au.skip_browser_ua,
                None => false,
            },
            None => false,
        }
    }
}

} // verus!
