[package]
name = "rust_gigachat_demo"
version = "0.1.0"
edition = "2021"
publish = false

[dependencies]
gigalib = "*"
tokio = { version = "*", features = ["rt-multi-thread", "macros", "time"] }
async-trait = "*"
serde = { version = "*", features = ["derive"] }
serde_json = "*"
