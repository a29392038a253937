[package]
name = "mod_manager_core"
version = "0.1.0"
edition = "2021"
publish = false

[dependencies]
tokio = { version = "1", features = ["rt-multi-thread", "macros", "sync", "fs", "io-util"] }
reqwest = { version = "0.12", default-features = false, features = ["stream"] }
futures-util = "0.3"
dirs = "6"
once_cell = "1"
async-trait = "0.1"
log = "0.4"
thiserror = "2"
serde = { version = "1", features = ["derive"] }
