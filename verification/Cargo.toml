[package]
name = "netbeam"
version = "0.1.0"
edition = "2021"
publish = false

[dependencies]
anyhow = "*"
async-trait = "*"
bytes = "*"
log = "*"
parking_lot = "*"
serde = { version = "*", features = ["derive"] }
tokio = { version = "*", features = ["rt", "rt-multi-thread", "sync", "macros", "time"] }

[dev-dependencies]
bincode2 = "*"
