[package]
name = "cosmos_peggy"
version = "0.1.0"
edition = "2021"
publish = false

[dependencies]
contact = "=0.3.7"
