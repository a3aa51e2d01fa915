[package]
name = "sdv_twin"
version = "0.1.0"
edition = "2021"
publish = false

[dependencies]
anyhow = "1"
async-trait = "0.1"
ractor = "0.15"
rand = "0.9"
serde = { version = "1", features = ["derive"] }
socketcan = "3"
time = { version = "0.3", features = ["formatting", "macros"] }
tokio = { version = "1", features = ["macros", "rt-multi-thread", "sync", "time"] }
