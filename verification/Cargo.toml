[package]
name = "homework"
version = "0.1.0"
edition = "2021"
publish = false

[dependencies]
rama = { version = "=0.2.0", default-features = false, features = ["http-full", "haproxy"] }
serde = { version = "=1.0.229", features = ["derive"] }
serde_json = "=1.0.154"
clap = { version = "=4.6.7", features = ["derive"] }
tokio = { version = "=1.54.1", features = ["macros", "rt-multi-thread", "time"] }
sha2 = "=0.10.9"
base64 = "=0.22.1"
