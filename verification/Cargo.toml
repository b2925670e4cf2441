[package]
name = "engine_sysconf"
version = "0.1.0"
edition = "2021"
publish = false

[dependencies]
num_cpus = "*"
sysinfo = "*"
procinfo = "*"
page_size = "*"
rustix = { version = "*", features = ["process"] }
serde = { version = "*", features = ["derive"] }
