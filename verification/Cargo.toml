[package]
name = "zip_parser"
version = "0.1.0"
edition = "2021"
publish = false

[dependencies]
flate2 = "*"
clap = { version = "*", features = ["derive"] }
mlua = { version = "*", features = ["lua54", "vendored", "async"] }
procfs = "*"
tokio = { version = "*", features = ["macros", "rt", "time"] }
zip = "*"
