[package]
name = "rpc_gateway"
version = "0.1.0"
edition = "2021"
publish = false

[dependencies]
url = "=2.5.8"
regex = "=1.13.1"
fastrand = "=2.5.0"
arc-swap = "=1.9.3"
rand = "=0.9.5"
config = { version = "=0.14.1", default-features = false, features = ["toml"] }
serde = { version = "=1.0.229", features = ["derive"] }
serde_json = "=1.0.154"
bytes = "=1.12.1"
tokio = { version = "=1.54.1", features = ["rt-multi-thread", "macros", "net", "signal", "time", "sync"] }
tokio-util = { version = "=0.7.20", features = ["rt"] }
hyper = { version = "=1.12.0", features = ["server", "http1"] }
hyper-util = { version = "=0.1.21", features = ["tokio"] }
http-body-util = "=0.1.5"
reqwest = { version = "=0.12.28", default-features = false, features = ["json"] }
tracing = "=0.1.44"
tracing-subscriber = { version = "=0.3.23", features = ["env-filter"] }
anyhow = "=1.0.104"
thiserror = "=2.0.21"
futures = "=0.3.34"
tokio-tungstenite = "=0.24.0"
dashmap = "=6.2.1"
nonempty = "=0.10.0"
simd-json = "=0.14.3"
alloy-primitives = { version = "=1.7.3", default-features = false, features = ["std", "serde"] }
moka = { version = "=0.12.16", features = ["future"] }
actix-router = "=0.5.4"
metrics = "=0.24.6"
bb8-redis = "*"

[dev-dependencies]
tempfile = "=3.27.0"
