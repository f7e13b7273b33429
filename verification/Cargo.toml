[package]
name = "roomfeed"
version = "0.1.0"
edition = "2021"
publish = false

[dependencies]
serde_json = "1"
flate2 = "1"
brotli = "*"
serde = { version = "1", features = ["derive"] }
ureq = { version = "2", default-features = false, features = ["json", "native-tls"] }
native-tls = "0.2"
websocket = { version = "*", default-features = false, features = ["sync-ssl"] }
colored = "*"
log = "*"
simple_logger = "*"
