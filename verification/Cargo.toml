[package]
name = "oxjest"
version = "0.1.0"
edition = "2021"
publish = false

[dependencies]
base64 = "=0.22.1"
oxc = { version = "=0.138.0", features = ["semantic", "transformer", "codegen", "ast_visit"] }
oxc_sourcemap = "*"
