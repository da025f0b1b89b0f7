[package]
name = "binance_connector"
version = "0.1.0"
edition = "2021"
publish = false

[dependencies]
binance = "*"
serde_json = "*"
