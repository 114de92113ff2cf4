[package]
name = "tuifeed"
version = "0.1.0"
edition = "2021"
publish = false

[dependencies]
argh = "=0.1.19"
chrono = "=0.4.45"
dirs = "=7.0.0"
feed-rs = "=2.4.0"
open = "=5.4.5"
regex = "=1.13.1"
serde = { version = "=1.0.229", features = ["derive"] }
serde_json = "=1.0.154"
thiserror = "=2.0.21"
toml = "=1.1.8"
tui-realm-stdlib = "2"
tui-realm-textarea = "=2.1.0"
tuirealm = "=2.2.0"
unicode-truncate = "=3.0.0"
ureq = "=3.5.0"
