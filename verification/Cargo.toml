[package]
name = "jdwp_server"
version = "0.1.0"
edition = "2021"
publish = false

[dependencies]
ascii = "1"
c_vec = "2"
serde = { version = "1", features = ["derive"] }
serde_json = "1"
tiny_http = "0.12"
tokio = { version = "1", features = ["rt-multi-thread"] }
