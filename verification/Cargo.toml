[package]
name = "abe_store"
version = "0.1.0"
edition = "2021"
publish = false

[dependencies]
rabe = "=0.3.1"
serde = { version = "=1.0.229", features = ["derive"] }
serde_json = "=1.0.154"
rocket = "=0.5.2"
rocket_dyn_templates = { version = "=0.2.0", features = ["tera"] }
