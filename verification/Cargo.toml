[package]
name = "proc_result"
version = "0.1.0"
edition = "2021"
publish = false

[dependencies]
serde = { version = "=1.0.229", features = ["derive"] }

[dev-dependencies]
libc = "=0.2.190"
