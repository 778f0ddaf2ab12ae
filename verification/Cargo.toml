[package]
name = "ipc_agent"
version = "0.1.0"
edition = "2021"
publish = false

[dependencies]
fvm_shared = "*"
serde_json = "*"
