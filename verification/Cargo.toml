[package]
name = "proc_qq"
version = "0.1.0"
edition = "2021"
publish = false

[dependencies]
regex = "1"
rand = "0.8"
hex = "0.4"
url = "2"
ricq = "*"
ricq-core = "*"
tokio = { version = "1", features = ["full"] }
anyhow = "1"
async-trait = "0.1"
bytes = "1"
futures = "0.3"
serde = { version = "1", features = ["derive"] }
serde_json = "1"
serde_yaml = "0.9"
chrono = "0.4"
syn = { version = "1", features = ["full"] }
quote = "1"
proc-macro2 = "1"
tracing = "0.1"
lazy_static = "1"
once_cell = "1"
tokio-socks = "0.5"
trust-dns-resolver = "*"
tokio-cron-scheduler = "*"
qr2term = "*"
opener = "*"
reqwest = { version = "0.11", default-features = false }
