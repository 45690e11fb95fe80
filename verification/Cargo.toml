[package]
name = "rust_ray_tracing"
version = "0.1.0"
edition = "2021"
publish = false

[dependencies]
rand = "0.8"
serde = { version = "1", features = ["derive"] }
serde_json = "1"
clap = "2"
num_cpus = "1"
console = "*"
indicatif = "*"
