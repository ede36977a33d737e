[package]
name = "itunes_xml"
version = "0.1.0"
edition = "2021"
publish = false

[dependencies]
xml-rs = "=1.0.0"
urlencoding = "=2.1.3"
rusqlite = { version = "=0.40.2", features = ["bundled"] }
axum = "*"
tokio = { version = "*", features = ["rt-multi-thread", "net", "macros", "fs", "io-util"] }
tokio-util = { version = "*", features = ["codec", "io"] }
