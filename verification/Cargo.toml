[package]
name = "astro_up_manifests"
version = "0.1.0"
edition = "2021"
publish = false

[dependencies]
semver = "1"
lenient_semver = "0.4"
regex = "1"
rand = "0.9"
sha2 = "0.10"
base64 = "0.22"
goblin = "0.9"
url = "2"
scraper = "0.22"
chrono = "0.4"
serde = { version = "1", features = ["derive"] }
serde_json = "1"
toml = "0.8"
clap = { version = "4", features = ["derive"] }
tokio = { version = "1", features = ["macros", "rt-multi-thread", "time"] }
reqwest = { version = "0.12", features = ["json"] }
reqwest-middleware = "0.4"
http = "1"
bytes = "1"
anyhow = "1"
thiserror = "2"
tracing = "0.1"
tracing-subscriber = "0.3"
walkdir = "2"
rusqlite = { version = "0.32", features = ["bundled"] }
tempfile = "3"
futures = "0.3"
chromiumoxide = "0.7"
