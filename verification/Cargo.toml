[package]
name = "sanicrs"
version = "0.1.0"
edition = "2021"
publish = false

[dependencies]
md5 = "*"
rand = "0.9"
uuid = { version = "1", features = ["v4"] }
format-url = "*"
glib = "*"
serde = { version = "1", features = ["derive"] }
serde_json = "1"
reqwest = { version = "0.12", default-features = false, features = ["json"] }
tokio = { version = "1", features = ["rt", "macros"] }
