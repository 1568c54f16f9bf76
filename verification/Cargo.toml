[package]
name = "bosminer_am1_s9"
version = "0.1.0"
edition = "2021"
publish = false

[dependencies]
clap = { version = "2", default-features = false }
embedded-hal = { version = "0.2", features = ["unproven"] }
futures = "0.3"
tokio = { version = "1", features = ["rt", "sync", "time"] }
