[package]
name = "agent_bridge"
version = "0.1.0"
edition = "2021"
publish = false

[dependencies]
log = "*"
pyo3 = "*"
tauri = { version = "*", default-features = false }
tauri-plugin-log = "*"
