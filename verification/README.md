# astro_up_manifests

The logic of the astrophotography software manifest pipeline, verified with
Verus: TOML manifests describing packages, the catalog compiler's decisions,
and the version checker's providers, audit, retry, rate-limit and issue rules.

- `src/` is the verified library. Each public function states what it returns
  in its `ensures`; the laws of the library (orderings, issue lifecycle,
  report counts, probe progress, ...) are public proof functions named
  `law_*`.
  - manifests and their validation: `manifest`, `validate`, `template`,
    `version`, `version_order`, `version_laws`, `version_file`
  - the checker: `providers`, `provider_api`, `provider_pages`, `url_probe`,
    `precision`, `audit`, `audit_report`, `hash`, `retry`, `rate_limit`,
    `state`, `issue`, `run_summary`, `sharpcap`, `file_type`
  - the compiler: `catalog`
  - calls into other crates, with the contracts they are trusted to meet:
    `outside_text` (semver, lenient_semver, regex), `web` (scraper, url, http,
    goblin), `platform`, `clock` (chrono), and the wrappers in `hash`,
    `catalog`, `sharpcap` and `rate_limit`
- `app/` is the program around it: command line, files, SQLite, HTTP, the
  headless browser and GitHub issues. `astro-up compile`, `astro-up check` and
  `astro-up audit` run the compiler, the checker and the audit.
- `tests/` runs the library on concrete values.
