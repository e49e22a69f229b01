[package]
name = "mirl_values"
version = "0.1.0"
edition = "2021"
publish = false

[dependencies]
num-bigint = "0.4"
num-traits = "0.2"
num-bigfloat = "1.7"
serde_json = "1"
toml = "0.9"
