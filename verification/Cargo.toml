[package]
name = "pesde"
version = "0.7.0"
edition = "2021"
publish = false

[dependencies]
anyhow = "1"
async-compression = { version = "0.4", features = ["tokio", "gzip"] }
clap = { version = "4", features = ["derive"] }
console = "0.15"
dirs = "6"
fs-err = { version = "3", features = ["tokio"] }
full_moon = { version = "2", features = ["luau"] }
futures = "0.3"
gix = { version = "0.72", default-features = false }
indicatif = "0.17"
inquire = "0.7"
open = "5"
relative-path = "1"
reqwest = { version = "0.12", default-features = false, features = ["rustls-tls", "stream", "json"] }
semver = { version = "1", features = ["serde"] }
serde = { version = "1", features = ["derive"] }
tempfile = "3"
thiserror = "2"
tokio = { version = "1", features = ["full"] }
tokio-tar = "0.3"
toml = "0.8"
tracing = "0.1"
url = { version = "2", features = ["serde"] }
urlencoding = "2"
