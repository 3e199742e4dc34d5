[package]
name = "dispute"
version = "0.1.0"
edition = "2021"
publish = false

[dependencies]
image = { version = "=0.24.9", default-features = false, features = ["png"] }
serde = { version = "1", features = ["derive"] }
serde_yaml = "0.9"
directories = "5"
fslock = "0.2"
notify = { version = "6", default-features = false }
async-std = "1"
