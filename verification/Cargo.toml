[package]
name = "thoth_export"
version = "0.1.0"
edition = "2021"
publish = false

[dependencies]
chrono = "0.4"
csv = "1"
xml-rs = "0.8"
