[package]
name = "mxlite"
version = "0.1.0"
edition = "2021"
publish = false

[dependencies]
anyhow = "1"
base16ct = { version = "0.2", features = ["alloc"] }
base64 = "0.22"
clap = { version = "4", features = ["derive", "env"] }
colored = "2"
digest = "0.10"
futures-util = "0.3"
log = "0.4"
md-5 = "0.10"
mlua = { version = "0.10", features = ["lua54", "vendored", "async", "send"] }
nix = { version = "0.29", features = ["signal", "process", "feature"] }
rand = "0.9"
reqwest = { version = "0.12", default-features = false, features = ["rustls-tls", "stream"] }
serde = { version = "1", features = ["derive"] }
serde_json = "1"
serde_yml = "*"
sha1 = "0.10"
sha2 = "0.10"
sha3 = "0.10"
sysinfo = "0.33"
thiserror = "2"
time = { version = "0.3", features = ["macros", "local-offset", "formatting"] }
tokio = { version = "1", features = ["full"] }
tokio-tungstenite = "0.26"
url = "2"
xxhash-rust = { version = "0.8", features = ["xxh3"] }
