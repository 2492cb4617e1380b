[package]
name = "cedar_bridge"
version = "0.1.0"
edition = "2021"
publish = false

[dependencies]
cedar-policy = "2"
once_cell = "1"
wee_alloc = "0.4"

[dev-dependencies]
serde_json = "1"
