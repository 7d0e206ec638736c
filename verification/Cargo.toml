[package]
name = "snowflake-id-worker"
version = "0.1.0"
edition = "2021"
publish = false

[dependencies]
rs-snowflake = "*"
clap = { version = "4", features = ["derive", "env"] }
hostname = "*"
serde = { version = "1", features = ["derive"] }
serde_json = "1"
tokio = { version = "1", features = ["macros", "rt-multi-thread", "signal"] }
warp = { version = "0.3", default-features = false }
