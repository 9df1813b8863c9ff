[package]
name = "core_profiler"
version = "0.1.0"
edition = "2021"
publish = false

[dependencies]
argh = "*"
csv = "*"
libc = "*"
ndarray = "*"
serde = { version = "*", features = ["derive"] }
