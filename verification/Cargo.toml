[package]
name = "wt"
version = "0.5.0"
edition = "2021"
publish = false

[dependencies]
anyhow = "=1.0.104"
blake3 = "=1.8.7"
ciborium = "=0.2.2"
clap = { version = "=4.6.7", default-features = false, features = ["derive", "std", "help", "usage"] }
data-encoding = "=2.11.1"
hex = "=0.4.3"
iroh = { version = "=0.98.2", default-features = false, features = ["tls-ring"] }
libc = "=0.2.191"
mdns-sd = { version = "*", default-features = false }
rand = "=0.10.3"
rusqlite = { version = "=0.37.0", default-features = false, features = ["bundled"] }
serde = { version = "=1.0.229", features = ["derive"] }
serde_json = "=1.0.154"
thiserror = "=2.0.21"
tokio = { version = "=1.54.1", features = ["rt-multi-thread", "macros", "net", "io-util", "io-std", "sync", "time", "process", "signal"] }
tower-http = { version = "=0.6.11", default-features = false, features = ["cors"] }
tracing = "=0.1.44"
tracing-subscriber = { version = "=0.3.23", default-features = false, features = ["fmt", "env-filter"] }
