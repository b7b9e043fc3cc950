[package]
name = "duck"
version = "0.1.0"
edition = "2021"
publish = false

[dependencies]
hashbrown = "=0.17.1"
colored = "=3.1.1"
itertools = "=0.15.0"
codespan-reporting = "=0.13.1"
parking_lot = "=0.13.0"
regex = "=1.13.1"
num-format = "=0.4.4"
async-walkdir = "=2.2.0"
futures = "=0.3.34"
tokio = { version = "=1.54.1", features = ["rt-multi-thread", "macros", "fs", "sync"] }
toml = "=1.1.8"
serde = { version = "=1.0.229", features = ["derive"] }
clap = { version = "=4.6.7", features = ["derive"] }
