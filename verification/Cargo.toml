[package]
name = "launcher_core"
version = "0.1.0"
edition = "2021"
publish = false

[dependencies]
relm4 = { version = "0.6", features = ["libadwaita"] }
tracing = "0.1"
