[package]
name = "crust_core"
version = "1.0.0"
edition = "2021"
publish = false

[dependencies]
base64 = "=0.22.1"
flate2 = "=1.1.10"
md-5 = "0.10"
rand = "=0.9.5"
reqwest = { version = "=0.12.28", default-features = false, features = ["json"] }
serde = { version = "=1.0.229", features = ["derive"] }
serde_json = "=1.0.154"
sha1 = "=0.10.7"
sha2 = "=0.10.9"
tar = "=0.4.46"
thiserror = "=2.0.21"
tokio = { version = "=1.54.1", features = ["rt-multi-thread", "macros", "fs", "net", "io-util", "process", "time", "sync"] }
url = "=2.5.8"
zip = { version = "=2.6.1", default-features = false, features = ["deflate"] }
