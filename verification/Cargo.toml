[package]
name = "hazelnut"
version = "0.1.0"
edition = "2021"
publish = false

[dependencies]
anyhow = "=1.0.104"
chrono = "=0.4.45"
clap = { version = "=4.6.7", features = ["derive"] }
crossterm = "0.28"
dirs = "=5.0.1"
fs2 = "=0.4.3"
glob = "=0.3.4"
indexmap = "=2.14.2"
libc = "=0.2.191"
notify = "=6.1.1"
notify-rust = "=4.18.2"
open = "5"
ratatui = "0.29"
regex = "=1.13.1"
serde = { version = "=1.0.229", features = ["derive"] }
serde_json = "=1.0.154"
shell-escape = "=0.1.5"
shlex = "=1.3.0"
tokio = { version = "=1.54.1", features = ["full"] }
toml = "=0.8.23"
tracing = "=0.1.44"
tracing-subscriber = { version = "=0.3.23", features = ["env-filter"] }
ureq = { version = "=2.12.1", default-features = false, features = ["json"] }
zip = { version = "=2.6.1", default-features = false, features = ["deflate"] }
