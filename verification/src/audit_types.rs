//! Result types of the audit, and what a detected file type means for installation.
use vstd::prelude::*;
use crate::text::str_equals;

verus! {

/// Overall outcome for one package.
#[derive(Debug, Clone, Copy, PartialEq, Eq, Structural)]
pub enum ResultStatus {
    Pass,
    Fail,
    Skip,
}

/// Outcome of one check.
#[derive(Debug, Clone, Copy, PartialEq, Eq, Structural)]
pub enum CheckStatus {
    Pass,
    Fail,
    Skip,
    Timeout,
}

/// Why a URL could not be reached.
#[derive(Debug, Clone, Copy, PartialEq, Eq, Structural)]
pub enum UrlFailureType {
    Permanent,
    Transient,
    Blocked,
}

/// The kind of file recognised from its first bytes.
#[derive(Debug, Clone, Copy, PartialEq, Eq, Structural)]
pub enum FileType {
    PeExe,
    Zip,
    Msi,
    Nsis,
    InnoSetup,
    Unknown,
}

/// How a detected install method relates to the declared one.
#[derive(Debug, Clone, Copy, PartialEq, Eq, Structural)]
pub enum MatchResult {
    Match,
    Mismatch,
    Skipped,
    DetectionFailed,
}

/// Reachability of the download URL.
#[derive(Debug, Clone)]
pub struct UrlCheck {
    pub status: CheckStatus,
    pub url: Option<String>,
    pub http_status: Option<u16>,
    pub failure_type: Option<UrlFailureType>,
    pub method_used: Option<String>,
}

/// Result of version discovery.
#[derive(Debug, Clone)]
pub struct VersionCheck {
    pub status: CheckStatus,
    pub version: Option<String>,
    pub error: Option<String>,
}

/// Declared against detected install method.
#[derive(Debug, Clone)]
pub struct InstallMethodCheck {
    pub status: CheckStatus,
    pub declared_method: String,
    pub declared_zip_wrapped: bool,
    pub detected_file_type: Option<FileType>,
    pub detected_method: Option<String>,
    pub detected_zip_wrapped: bool,
    pub match_result: MatchResult,
}

/// Whether the discovered version is precise enough for the download URL.
#[derive(Debug, Clone)]
pub struct PrecisionCheck {
    pub status: CheckStatus,
    pub url_contains_version: bool,
    pub url_version_segment: Option<String>,
    pub discovered_version: String,
    pub comparison_mode: String,
}

/// All checks for one package.
#[derive(Debug, Clone)]
pub struct PackageValidationResult {
    pub id: String,
    pub provider: String,
    pub status: ResultStatus,
    pub version_discovery: VersionCheck,
    pub url_reachability: UrlCheck,
    pub install_method: InstallMethodCheck,
    pub version_precision: Option<PrecisionCheck>,
}

/// Counters over all audited packages.
#[derive(Debug, Clone, Copy, PartialEq, Eq, Structural)]
pub struct ValidationSummary {
    pub total_checked: u32,
    pub passed: u32,
    pub failed_url: u32,
    pub failed_version: u32,
    pub failed_install_method: u32,
    pub failed_precision: u32,
    pub skipped: u32,
}

impl Default for ValidationSummary {
    fn default() -> (r: Self)
        ensures
            r == (ValidationSummary {
                total_checked: 0,
                passed: 0,
                failed_url: 0,
                failed_version: 0,
                failed_install_method: 0,
                failed_precision: 0,
                skipped: 0,
            }),
    {
        ValidationSummary {
            total_checked: 0,
            passed: 0,
            failed_url: 0,
            failed_version: 0,
            failed_install_method: 0,
            failed_precision: 0,
            skipped: 0,
        }
    }
}

/// The full audit report.
#[derive(Debug, Clone)]
pub struct AuditReport {
    pub generated_at: String,
    pub manifests_checked: u32,
    pub manifests_passed: u32,
    pub manifests_failed: u32,
    pub manifests_skipped: u32,
    pub results: Vec<PackageValidationResult>,
    pub summary: ValidationSummary,
}

/// The `install.method` value that corresponds to a detected file type.
pub open spec fn install_method_of(t: FileType) -> Seq<char> {
    match t {
        FileType::InnoSetup => "inno_setup"@,
        FileType::Nsis => "nsis"@,
        FileType::Msi => "msi"@,
        FileType::PeExe | FileType::Unknown => "exe"@,
        FileType::Zip => "download_only"@,
    }
}

/// Whether a detected file type is compatible with a declared install method.
pub open spec fn type_matches_method(t: FileType, method: Seq<char>) -> bool {
    match t {
        FileType::InnoSetup => method == "inno_setup"@ || method == "exe"@,
        FileType::Nsis => method == "nsis"@ || method == "exe"@,
        FileType::Msi => method == "msi"@ || method == "wix"@,
        FileType::PeExe => method == "exe"@ || method == "inno_setup"@ || method == "nsis"@ || method
            == "burn"@,
        FileType::Zip => method == "download_only"@,
        FileType::Unknown => false,
    }
}

impl FileType {
    /// Convert detected file type to the corresponding `install.method` value.
    pub fn as_install_method(&self) -> (r: &'static str)
        ensures
            r@ == install_method_of(*self),
    {
        match self {
            FileType::InnoSetup => "inno_setup",
            FileType::Nsis => "nsis",
            FileType::Msi => "msi",
            FileType::PeExe | FileType::Unknown => "exe",
            FileType::Zip => "download_only",
        }
    }

    /// Check if this detected file type is compatible with the declared install method.
    pub fn matches_install_method(&self, method: &str) -> (r: bool)
        ensures
            r == type_matches_method(*self, method@),
    {
        match self {
            FileType::InnoSetup => str_equals(method, "inno_setup") || str_equals(method, "exe"),
            FileType::Nsis => str_equals(method, "nsis") || str_equals(method, "exe"),
            FileType::Msi => str_equals(method, "msi") || str_equals(method, "wix"),
            FileType::PeExe => str_equals(method, "exe") || str_equals(method, "inno_setup")
                || str_equals(method, "nsis") || str_equals(method, "burn"),
            FileType::Zip => str_equals(method, "download_only"),
            FileType::Unknown => false,
        }
    }

    /// Whether this is a ZIP archive.
    pub fn is_zip(&self) -> (r: bool)
        ensures
            r == (*self == FileType::Zip),
    {
        match self {
            FileType::Zip => true,
            _ => false,
        }
    }
}

/// Every recognised file type is compatible with the install method it maps
/// to; an unrecognised file is compatible with none.
pub proof fn law_detected_method_matches(t: FileType)
    ensures
        t != FileType::Unknown ==> type_matches_method(t, install_method_of(t)),
        forall|m: Seq<char>| !type_matches_method(FileType::Unknown, m),
{
}

} // verus!
