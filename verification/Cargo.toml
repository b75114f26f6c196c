[package]
name = "fsapp"
version = "0.5.0"
edition = "2021"
publish = false

[dependencies]
clap = { version = "4", features = ["derive"] }
clap_complete = "4"
colored = "*"
dirs = "*"
file-engine = { version = "2", features = ["sync", "watch", "compress", "checksum", "permissions"] }
humantime = "2"
indicatif = "*"
semver = "1"
serde = { version = "1", features = ["derive"] }
serde_json = "1"
tokio = { version = "1", features = ["macros", "rt-multi-thread", "signal"] }
tokio-stream = "*"
tracing = "*"
tracing-subscriber = "*"
ureq = { version = "3", features = ["json"] }
