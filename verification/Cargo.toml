[package]
name = "hydebar"
version = "0.1.0"
edition = "2021"
publish = false

[dependencies]
regex = "1"
serde = { version = "1", features = ["derive"] }
serde_json = "1"
toml = "*"
hex_color = { version = "3", features = ["serde"] }
tokio = { version = "1", features = ["process", "rt", "rt-multi-thread", "macros", "time"] }
log = "0.4"
