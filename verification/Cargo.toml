[package]
name = "plotargs"
version = "0.1.0"
edition = "2021"
publish = false

[dependencies]
eyre = "=0.6.14"
lexopt = "=0.3.2"

[dev-dependencies]
bstr = { version = "1", default-features = false, features = ["std"] }
