//! Discovered versions and the per-version files they are stored in.
use vstd::prelude::*;
use crate::clock::Timestamp;
use crate::version::{sanitize_for_filename, sanitized};
use crate::text::{concat2, string_from_str};

verus! {

/// A single discovered version entry, stored as `versions/{id}/{version}.json`.
#[derive(Debug, Clone)]
pub struct VersionEntry {
    pub url: String,
    pub sha256: Option<String>,
    pub discovered_at: Timestamp,
    pub release_notes_url: Option<String>,
    pub pre_release: bool,
}

/// The file name a version is stored under: the sanitized version and `.json`.
pub open spec fn version_file_name_text(version: Seq<char>) -> Seq<char> {
    sanitized(version) + ".json"@
}

/// The file name a version is stored under, inside its package's directory.
pub fn version_file_name(version: &str) -> (r: String)
    ensures
        r@ == version_file_name_text(version@),
{
    let safe = sanitize_for_filename(version);
    concat2(safe.as_str(), ".json")
}

/// Result of a version check that discovered a new version.
#[derive(Debug, Clone)]
pub struct DiscoveredVersion {
    pub package_id: String,
    pub version: String,
    pub url: String,
    pub sha256: Option<String>,
    pub release_notes_url: Option<String>,
    pub pre_release: bool,
}

impl DiscoveredVersion {
    /// Whether this version is written at all: versions with an empty URL are skipped.
    pub fn has_url(&self) -> (r: bool)
        ensures
            r == (self.url@.len() > 0),
    {
        !self.url.as_str().is_empty()
    }

    /// The name of the file this version is written to.
    pub fn file_name(&self) -> (r: String)
        ensures
            r@ == version_file_name_text(self.version@),
    {
        version_file_name(self.version.as_str())
    }

    /// The entry written for this version, discovered at `now`.
    pub fn entry_at(&self, now: Timestamp) -> (r: VersionEntry)
        ensures
            r.url@ == self.url@,
            r.sha256 == self.sha256,
            r.discovered_at == now,
            r.release_notes_url == self.release_notes_url,
            r.pre_release == self.pre_release,
    {
        VersionEntry {
            url: string_from_str(self.url.as_str()),
            sha256: self.sha256.clone(),
            discovered_at: now,
            release_notes_url: self.release_notes_url.clone(),
            pre_release: self.pre_release,
        }
    }
}

} // verus!
