[package]
name = "sessrums"
version = "0.1.0"
edition = "2021"
publish = false

[dependencies]
serde = { version = "1", features = ["derive"] }
bincode = "1"
thiserror = "1"
futures-core = "0.3"
