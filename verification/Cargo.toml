[package]
name = "hpc_core"
version = "0.1.0"
edition = "2021"
publish = false

[dependencies]
anyhow = "*"
bytemuck = "*"
chrono = "*"
clap = { version = "*", features = ["derive"] }
fastrand = "*"
fs2 = "*"
hostname = "*"
once_cell = "*"
opencl3 = "*"
serde = { version = "*", features = ["derive"] }
serde_json = "*"
time = "*"
