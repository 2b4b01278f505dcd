[package]
name = "nmea_parser"
version = "0.1.0"
edition = "2021"
publish = false

[dependencies]
bitvec = "*"
chrono = { version = "0.4", default-features = false, features = ["std"] }
hashbrown = "*"
log = "0.4"
num-traits = "0.2"
serde = { version = "1", features = ["derive"] }
