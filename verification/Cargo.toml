[package]
name = "kapsule"
version = "0.1.0"
edition = "2021"
publish = false

[dependencies]
anyhow = "1"
flate2 = "1"
futures-util = "0.3"
indicatif = "0.17"
libc = "0.2"
nix = { version = "0.29", features = ["sched", "mount", "hostname", "process", "signal", "fs"] }
reqwest = { version = "0.12", features = ["json", "stream"] }
serde = { version = "1", features = ["derive"] }
serde_json = "1"
tar = "0.4"
tokio = { version = "1", features = ["full"] }
tokio-util = { version = "0.7", features = ["io", "io-util"] }
