[package]
name = "new_relic_logs"
version = "0.1.0"
edition = "2021"
publish = false

[dependencies]
bytesize = "1"
indexmap = { version = "1", features = ["std"] }
inventory = "0.3"
serde = { version = "1", features = ["derive"] }
typetag = "0.2"
