[package]
name = "aw-watcher-lastfm"
version = "0.1.0"
edition = "2021"
publish = false

[dependencies]
aw-client-rust = "*"
aw-models = "*"
chrono = "0.4"
crossbeam-channel = "0.5"
ctrlc = "3"
dirs = "*"
env_logger = "*"
fern = { version = "0.7", features = ["colored"] }
log = "0.4"
reqwest = { version = "*", features = ["blocking", "json"] }
serde_json = "1"
serde_yaml = "0.9"

[dev-dependencies]
regex = "1"
