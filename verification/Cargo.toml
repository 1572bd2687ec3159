[package]
name = "mpv_wrapper"
version = "0.1.0"
edition = "2021"
publish = false

[dependencies]
serde = { version = "1", features = ["derive"] }
serde_json = "1"
indexmap = { version = "2", features = ["serde"] }
log = "0.4"
libloading = "0.8"
zip = { version = "2", default-features = false, features = ["deflate"] }
