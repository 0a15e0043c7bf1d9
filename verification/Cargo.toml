[package]
name = "disk_buffer"
version = "0.1.0"
edition = "2021"
publish = false

[dependencies]
crc32fast = "=1.5.4"
snafu = "=0.9.2"

[dev-dependencies]
proptest = { version = "1", default-features = false, features = ["std"] }
