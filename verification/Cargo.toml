[package]
name = "golem-cli"
version = "0.1.0"
edition = "2021"
publish = false

[dependencies]
fuzzy-matcher = "=0.3.7"
blake3 = "=1.8.7"
iso8601 = "=0.6.6"
textwrap = "=0.16.4"
console = "=0.15.11"
colored = "=2.2.0"
serde = { version = "=1.0.229", features = ["derive"] }
serde_json = "=1.0.154"
serde_yaml = "=0.9.34"
clap = { version = "=4.6.7", features = ["derive"] }
anyhow = "=1.0.104"
terminal_size = "=0.4.4"
http = "=1.5.0"
uuid = { version = "=1.29.0", features = ["v4"] }
lenient_bool = "=0.1.1"
regex = "1"
