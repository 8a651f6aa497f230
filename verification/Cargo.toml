[package]
name = "readyset"
version = "0.1.0"
edition = "2021"
publish = false

[dependencies]
anyhow = "=1.0.104"
bincode = "=1.3.3"
deadpool = "=0.13.1"
deadpool-postgres = "=0.14.2"
mysql_async = { version = "=0.37.1", default-features = false, features = ["minimal-rust"] }
petgraph = { version = "=0.8.3", features = ["serde-1"] }
serde = { version = "=1.0.229", features = ["derive"] }
serde_json = "=1.0.154"
thiserror = "=2.0.21"
tikv-jemalloc-ctl = "=0.7.0"
tokio = { version = "=1.54.1", features = ["sync", "time", "macros", "rt"] }
tokio-postgres = "=0.7.18"
tracing = "=0.1.44"
url = { version = "=2.5.8", features = ["serde"] }
vec1 = "=1.12.1"
