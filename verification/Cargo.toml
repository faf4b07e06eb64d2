[package]
name = "reach"
version = "0.1.0"
edition = "2021"
publish = false

[dependencies]
tokio = { version = "*", features = ["full"] }
futures = "*"
tokio-stream = "*"
clap = { version = "*", features = ["derive", "env"] }
num_cpus = "*"
console = "*"
indicatif = "*"
