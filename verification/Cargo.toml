[package]
name = "rustcracker"
version = "0.1.0"
edition = "2021"
publish = false

[dependencies]
httparse = "1"
uuid = { version = "1", features = ["v4"] }
serde = { version = "1", features = ["derive"] }
serde_json = "1"
thiserror = "1"
log = "0.4"
