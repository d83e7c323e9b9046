//! The astrophotography software manifest pipeline: manifests and their
//! validation, version parsing and ordering, the catalog compiler's
//! decisions, and the version checker's providers, audit, retries, rate
//! limits and issues.
pub mod audit;
pub mod audit_report;
pub mod audit_types;
pub mod catalog;
pub mod clock;
pub mod file_type;
pub mod hash;
pub mod issue;
pub mod keyed;
pub mod manifest;
pub mod numeric;
pub mod order;
pub mod outside_text;
pub mod platform;
pub mod precision;
pub mod provider_api;
pub mod provider_pages;
pub mod providers;
pub mod rate_limit;
pub mod retry;
pub mod run_summary;
pub mod sharpcap;
pub mod state;
pub mod template;
pub mod text;
pub mod url_probe;
pub mod validate;
pub mod version;
pub mod version_file;
pub mod version_laws;
pub mod version_order;
pub mod version_traits;
pub mod web;
