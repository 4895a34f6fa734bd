[package]
name = "ruxfutex"
version = "0.1.0"
edition = "2021"
publish = false

[dependencies]
ahash = { version = "=0.8.12", default-features = false }
percpu = "=0.4.0"
rand = "=0.8.8"

[dev-dependencies]
axerrno = "=0.2.2"
