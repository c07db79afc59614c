[package]
name = "overvakt"
version = "1.0.0"
edition = "2021"
publish = false

[dependencies]
anyhow = "1"
clap = { version = "4", features = ["cargo"] }
config = { version = "0.13", default-features = false, features = ["toml"] }
http = "0.2"
http-serde = "1"
indexmap = { version = "2", features = ["serde"] }
lazy_static = "1"
lettre = "0.10"
libstrophe = "*"
log = "0.4"
once_cell = "1"
parking_lot = "0.12"
poem = { version = "1", features = ["static-files"] }
rand = "0.8"
regex = "1"
reqwest = { version = "0.11", features = ["blocking", "json", "gzip"] }
run_script = "0.10"
serde = { version = "1", features = ["derive"] }
serde_regex = "1"
socket2 = { version = "0.5", features = ["all"] }
tera = { version = "1", default-features = false }
thiserror = "1"
time = { version = "0.3", features = ["formatting", "parsing"] }
tokio = { version = "1", features = ["macros", "rt-multi-thread", "signal"] }
tracing = "0.1"
tracing-subscriber = { version = "0.3", features = ["env-filter"] }
url = { version = "2", features = ["serde"] }
