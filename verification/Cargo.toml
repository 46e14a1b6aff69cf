[package]
name = "rustyscript"
version = "0.1.0"
edition = "2021"
publish = false

[dependencies]
deno_path_util = "=0.6.4"
deno_permissions = "0.119"
reqwest = { version = "=0.13.5", default-features = false }
serde = { version = "=1.0.229", features = ["derive"] }
