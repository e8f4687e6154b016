[package]
name = "bombay"
version = "0.1.0"
edition = "2021"
publish = false

[dependencies]
const_format = "0.2"
iso8601-timestamp = "0.2"
serde = { version = "1", features = ["derive"] }
serde_json = "1"
serde_repr = "0.1"
serde_with = "3"
ureq = { version = "2", features = ["json", "cookies"] }
url = { version = "2", features = ["serde"] }
uuid = { version = "1", features = ["serde"] }
