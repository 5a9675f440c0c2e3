[package]
name = "lore_rename"
version = "0.1.0"
edition = "2021"
publish = false

[dependencies]
bytes = "=1.12.1"
hex = "=0.4.3"
tonic = { version = "=0.14.9", default-features = false }
tracing = "=0.1.44"
