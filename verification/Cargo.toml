[package]
name = "benchscale"
version = "0.1.0"
edition = "2021"
publish = false

[dependencies]
ipnetwork = "*"
hadris-iso = "*"
base64 = "*"
data-encoding = "*"
serde = { version = "1", features = ["derive"] }
serde_json = "1"
serde_yaml = "*"
toml = "*"
tokio = { version = "1", features = ["rt", "rt-multi-thread", "macros", "sync", "time", "process", "fs", "net", "io-util"] }
anyhow = "1"
dirs = "*"
nix = { version = "*", features = ["signal"] }
chrono = "*"
tracing = "*"
virt = "*"
libc = "*"
russh = "*"
bollard = "*"
futures-util = "*"
tar = "*"
async-trait = "*"
clap = { version = "4", features = ["derive"] }

[dev-dependencies]
tempfile = "*"
