[package]
name = "rusty_docker"
version = "0.1.0"
edition = "2021"
publish = false

[dependencies]
sha2 = "=0.10.9"
base64 = "=0.21.7"
regex = "=1.13.1"
serde = { version = "=1.0.229", features = ["derive"] }
serde_json = "=1.0.154"
serde_yaml = "=0.9.34"
uuid = { version = "=1.29.1", features = ["v4"] }
rand = "=0.8.8"
tokio = { version = "=1.54.1", features = ["rt-multi-thread", "macros", "net", "io-util", "sync", "time"] }
toml = "=1.2.1"
dirs = "=7.0.0"
bollard = "=0.21.1"
futures-util = "=0.3.34"
wae-request = "*"
num_cpus = "*"
