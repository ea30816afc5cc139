[package]
name = "screencast_portal_mock"
version = "0.1.0"
edition = "2021"
publish = false

[dependencies]
zbus = { version = "5", default-features = false, features = ["tokio"] }
tokio = { version = "1", features = ["rt", "rt-multi-thread", "macros", "sync", "time", "process", "io-util"] }
async-trait = "0.1"
thiserror = "2"
