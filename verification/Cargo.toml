[package]
name = "lumina_convert"
version = "0.1.0"
edition = "2021"
publish = false

[dependencies]
num_cpus = "1"
serde = { version = "1", features = ["derive"] }
serde_json = "1"
walkdir = "2"
rayon = "1"
once_cell = "1"
flume = "0.11"
open = "5"
thread-priority = "1"
tokio = { version = "1", features = ["rt", "rt-multi-thread"] }
libvips = "1"
