[package]
name = "agent_loader"
version = "0.1.0"
edition = "2021"
publish = false

[dependencies]
anyhow = "1"
ctor = "0.2"
jni = "0.21"
libc = "0.2"
libloading = "0.8"
log = "0.4"
serde = { version = "1", features = ["derive"] }
serde_json = "1"
simplelog = "0.12"
