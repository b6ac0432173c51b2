[package]
name = "nu_hcl"
version = "0.1.0"
edition = "2021"
publish = false

[dependencies]
hcl-rs = "=0.19.8"
serde_json = { version = "=1.0.151", features = ["preserve_order"] }
nu-plugin = "=0.112.2"
nu-protocol = "=0.112.2"
