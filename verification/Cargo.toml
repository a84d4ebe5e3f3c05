[package]
name = "stoat"
version = "0.1.0"
edition = "2021"
publish = false

[dependencies]
ulid = "=1.2.1"
regex = "=1.13.1"
tokio = { version = "=1.54.1", features = ["rt-multi-thread", "macros", "process", "io-util", "time", "sync", "net", "fs"] }
serde = { version = "=1.0.229", features = ["derive"] }
serde_json = "=1.0.154"
async-trait = "=0.1.92"
futures = "=0.3.34"
log = "=0.4.35"
either = "=1.19.0"
hound = "=3.5.1"
ping = "=0.10.0"
rand = "=0.10.3"
dashmap = "6"
indexmap = "2"
