[package]
name = "avail_da"
version = "0.1.0"
edition = "2021"
publish = false

[dependencies]
anyhow = "=1.0.104"
primitive-types = "=0.12.2"
reqwest = { version = "=0.11.27", default-features = false }
serde = { version = "=1.0.229", features = ["derive"] }
serde_json = "=1.0.154"
sp-core = { version = "=31.0.0", features = ["serde"] }
tokio = { version = "=1.54.1", features = ["time"] }
