[package]
name = "dev_scope"
version = "0.1.0"
edition = "2021"
publish = false

[dependencies]
minijinja = { version = "=3.0.5", features = ["serde"] }
shellexpand = "=3.1.2"
path-clean = "=1.0.1"
petgraph = "=0.8.3"
regex = "=1.13.1"
serde = { version = "=1.0.229", features = ["derive"] }
serde_yaml = "=0.9.34"
serde_json = "=1.0.154"
tokio = { version = "=1.54.1", features = ["full"] }
anyhow = "=1.0.104"
clap = { version = "=4.6.7", features = ["derive", "env"] }
glob = "=0.3.4"
sha256 = "=1.6.0"
which = { version = "=8.0.6", features = ["regex"] }
inquire = "=0.9.4"
nanoid = "=0.5.0"
colored = "=3.1.1"
pathdiff = "=0.2.3"
thiserror = "=2.0.21"
chrono = { version = "=0.4.45", default-features = false, features = ["alloc", "std", "clock"] }
