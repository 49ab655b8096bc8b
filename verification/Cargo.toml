[package]
name = "stasis"
version = "0.1.0"
edition = "2021"
publish = false

[dependencies]
dpi = "*"
rustls = { version = "0.23", default-features = false, features = ["aws_lc_rs", "std"] }
serde = { version = "1", features = ["derive"] }
serde_json = { version = "1", features = ["preserve_order"] }
url = "2"
