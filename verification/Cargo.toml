[package]
name = "time_tracker"
version = "0.1.0"
edition = "2021"
publish = false

[dependencies]
anyhow = "=1.0.104"
clap = { version = "=4.6.7", features = ["derive"] }
dirs = "=7.0.0"
edgedb-protocol = "0.6.1"
edgedb-tokio = "0.5.1"
serde = { version = "=1.0.229", features = ["derive"] }
tokio = { version = "=1.54.1", features = ["macros", "rt-multi-thread"] }
toml = "=1.1.8"
