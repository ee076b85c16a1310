[package]
name = "casekit"
version = "0.1.0"
edition = "2021"
publish = false

[dependencies]
convert_case = "0.6"
neon = { version = "0.10", default-features = false, features = ["napi-6"] }
