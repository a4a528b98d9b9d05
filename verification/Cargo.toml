[package]
name = "sc2_kiss"
version = "0.1.0"
edition = "2021"
publish = false

[dependencies]
tungstenite = "*"
dirs = "*"
