[package]
name = "nanocodex"
version = "0.1.0"
edition = "2021"
publish = false

[dependencies]
arcbox-ext4 = "=0.1.2"
chrono = { version = "0.4", features = ["serde"] }
clap = "=4.6.7"
dotenvy = "0.15"
eyre = "0.6"
fs2 = "0.4"
nix = { version = "0.30", features = ["signal", "process"] }
rustls = { version = "0.23", default-features = false, features = ["ring", "std"] }
serde = { version = "1", features = ["derive"] }
serde_json = { version = "=1.0.154", features = ["preserve_order"] }
sha2 = "=0.10.9"
tempfile = "3"
thiserror = "2"
tokio = { version = "=1.54.1", features = ["fs", "io-util", "io-std", "macros", "process", "rt-multi-thread", "sync", "time"] }
tracing = "0.1"
uuid = { version = "=1.29.0", features = ["serde"] }
yansi = { version = "1", features = ["detect-env", "detect-tty"] }
