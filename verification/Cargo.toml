[package]
name = "project_core"
version = "0.1.0"
edition = "2021"
publish = false

[dependencies]
serial = "=0.4.0"
tokio = { version = "1", features = ["rt-multi-thread", "macros"] }
serde = { version = "1", features = ["derive"] }
calamine = "0.21"
