[package]
name = "dsa_spec"
version = "0.1.0"
edition = "2021"
publish = false

[dependencies]
serde = { version = "1", features = ["derive"] }
serde_json = "1"
serde_yaml = "0.9"
serde_yml = "0.0.12"
tera = "1"
clap = { version = "4", features = ["derive"] }
jsonschema = { version = "0.17", default-features = false }
tracing = "0.1"
tracing-subscriber = { version = "0.3", features = ["env-filter", "fmt"] }
