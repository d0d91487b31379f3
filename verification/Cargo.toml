[package]
name = "payment_processor"
version = "0.1.0"
edition = "2021"
publish = false

[dependencies]
anyhow = "1"
csv = "1"
fnv = "1"
serde = { version = "1", features = ["derive"] }
structopt = "0.3"
thiserror = "1"
