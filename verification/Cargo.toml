[package]
name = "phylum"
version = "0.1.0"
edition = "2021"
publish = false

[dependencies]
ansi_term = "=0.12.1"
anyhow = "=1.0.104"
chrono = { version = "=0.4.45", features = ["serde"] }
clap = "=3.2.25"
log = "=0.4.34"
serde = { version = "=1.0.229", features = ["derive"] }
serde-xml-rs = "=0.5.1"
serde_yaml = "=0.8.26"
uuid = { version = "=1.29.0", features = ["serde"] }
