[package]
name = "searchcode"
version = "0.1.0"
edition = "2021"
publish = false

[dependencies]
tantivy = "=0.26.2"
sled = "=0.34.7"
dirs = "=7.0.0"
serde = { version = "=1.0.229", features = ["derive"] }
serde_yaml = "=0.9.34"
warp = { version = "=0.4.3", features = ["server"] }
tokio = { version = "=1.53.2", features = ["macros", "rt-multi-thread"] }
walkdir = "=2.5.0"
log = "=0.4.34"
env_logger = "=0.11.11"
