[package]
name = "troupe"
version = "0.1.0"
edition = "2021"
publish = false

[dependencies]
convert_case = "=0.12.0"
tokio = { version = "=1.53.2", features = ["full"] }
async-trait = "=0.1.92"
syn = { version = "=2.0.119", features = ["full", "fold", "extra-traits"] }
quote = "=1.0.47"
proc-macro2 = "=1.0.107"
