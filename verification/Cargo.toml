[package]
name = "filepipe"
version = "0.1.0"
edition = "2021"
publish = false

[dependencies]
anyhow = "1"
futures = "0.3"
quinn = "*"
rcgen = "*"
tokio = { version = "1", features = ["rt-multi-thread", "macros"] }
