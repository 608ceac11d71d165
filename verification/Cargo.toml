[package]
name = "proto"
version = "0.1.0"
edition = "2021"
publish = false

[dependencies]
argh = "=0.1.19"
async-trait = "=0.1.92"
backoff = { version = "=0.4.0", features = ["tokio"] }
chrono = "=0.4.45"
fern = { version = "=0.7.1", features = ["colored"] }
futures = "=0.3.34"
log = "=0.4.34"
rand = "=0.8.8"
redis = { version = "=0.27.6", features = ["aio", "tokio-comp", "streams"] }
redis-swapplex = "=0.13.0"
serde = { version = "=1.0.229", features = ["derive"] }
serde_json = "=1.0.154"
serde_with = { version = "=3.24.0", features = ["json"] }
tap = "=1.0.1"
thiserror = "=2.0.21"
tokio = { version = "=1.54.1", features = ["macros", "rt", "signal", "time"] }
tokio-util = "=0.7.20"

[dev-dependencies]
decimal = "=2.1.0"
