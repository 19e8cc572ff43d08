[package]
name = "ukhasnet_influxdb"
version = "0.1.0"
edition = "2021"
publish = false

[dependencies]
time = "0.1"
rustc-serialize = "0.3"
toml = "0.2"
ukhasnet-parser = "*"
reqwest = { version = "0.11", features = ["blocking"] }
fern = "0.3"
log = "0.3"
