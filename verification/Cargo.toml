[package]
name = "nexrad"
version = "0.1.0"
edition = "2021"
publish = false

[dependencies]
bzip2 = "*"
chrono = { version = "*", features = ["serde"] }
reqwest = { version = "*", default-features = false }
serde = { version = "*", features = ["derive"] }
uom = "*"
