[package]
name = "santa"
version = "0.1.0"
edition = "2021"
publish = false

[dependencies]
rand = "0.8"
clap = { version = "4", features = ["derive"] }
convex = "*"
futures = "0.3"
maplit = "1"
tokio = { version = "1", features = ["full"] }
