[package]
name = "webr"
version = "0.1.0"
edition = "2021"
publish = false

[dependencies]
askama = "=0.12.1"
axum = "=0.7.9"
chrono = "=0.4.45"
clap = { version = "=4.6.7", features = ["derive"] }
convert_case = "=0.6.0"
html = "=0.6.3"
natord = "=1.0.9"
pulldown-cmark = "=0.12.2"
pulldown-cmark-frontmatter = "=0.4.0"
serde = { version = "=1.0.229", features = ["derive"] }
thiserror = "=1.0.69"
time = { version = "=0.3.55", features = ["formatting", "macros"] }
tokio = { version = "=1.54.1", features = ["full"] }
tokio-util = { version = "=0.7.20", features = ["io"] }
toml = "=0.8.23"
tower = { version = "=0.4.13", features = ["util"] }
tower-http = { version = "=0.5.2", features = ["trace"] }
tracing = "=0.1.44"
tracing-subscriber = "=0.3.23"
