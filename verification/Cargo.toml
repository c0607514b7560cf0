[package]
name = "handshaker-core"
version = "0.7.5"
edition = "2021"
publish = false

[dependencies]
sha2 = "0.10"
md-5 = "0.10"
flate2 = "1"
uuid = { version = "1", features = ["v4"] }
serde = { version = "1", features = ["derive"] }
serde_json = "1"
rand = "0.8"
directories = "5"
kamadak-exif = "0.5"
mdns-sd = "*"
rusb = { version = "0.9", features = ["vendored"] }

[dev-dependencies]
tempfile = "3"
