[package]
name = "armillae_structured"
version = "0.1.0"
edition = "2021"
publish = false

[dependencies]
serde = "=1.0.229"
serde_json = { version = "=1.0.154", features = ["unbounded_depth"] }
jsonschema = { version = "=0.60.2", default-features = false }
futures-util = "=0.3.34"
