[package]
name = "ascending"
version = "0.1.0"
edition = "2021"
publish = false

[dependencies]
chrono = "=0.4.45"
regex = "=1.13.1"
rand = "=0.9.5"
indexmap = "=2.14.2"
ahash = "=0.8.12"
bit_op = "=0.1.1"
log = "=0.4.35"
serde = { version = "=1.0.229", features = ["derive"] }
serde_json = "=1.0.154"
toml = "=0.8.23"
speedy = "=0.8.7"
tokio = { version = "=1.54.1", features = ["rt-multi-thread", "macros", "sync", "time"] }
slotmap = "1"
