[package]
name = "pastor"
version = "0.1.0"
edition = "2021"
publish = false

[dependencies]
rand = "=0.8.8"
chrono = "=0.4.45"
axum = { version = "=0.8.9", features = ["multipart"] }
axum-extra = { version = "=0.10.3", features = ["typed-header"] }
tokio = { version = "=1.54.1", features = ["full"] }
tokio-util = { version = "=0.7.20", features = ["io"] }
tracing = "=0.1.44"
tracing-subscriber = "=0.3.23"
clap = { version = "=4.6.7", features = ["derive", "env"] }
toml = "=0.8.23"
serde = { version = "=1.0.229", features = ["derive"] }
inotify = "=0.11.5"
magic = "=0.16.7"
tera = { version = "=1.20.1", default-features = false }
xattr = "=1.7.0"
syntect = { version = "=5.3.0", default-features = false, features = ["parsing", "regex-fancy", "default-syntaxes"] }
thiserror = "=2.0.21"
