[package]
name = "nxpkgr"
version = "0.1.0"
edition = "2021"
publish = false

[dependencies]
pulldown-cmark = { version = "0.8", default-features = false }
roxmltree = "*"
serde = { version = "1", features = ["derive"] }
toml = "*"
reqwest = { version = "*", features = ["json"] }
tokio = { version = "1", features = ["rt-multi-thread", "macros"] }
tempfile = "3"
octocrab = "*"
color-eyre = "*"
thiserror = "*"
tracing = "*"
tracing-error = "*"
tracing-subscriber = { version = "*", features = ["env-filter"] }
