[package]
name = "glide_bridge"
version = "0.1.0"
edition = "2021"
publish = false

[dependencies]
glide-core = "=0.1.1"
glide-core-engine = "=0.1.1"
glide-logger = "=0.1.1"
tokio = { version = "=1.53.2", features = ["rt-multi-thread"] }
