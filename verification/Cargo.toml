[package]
name = "ast_toolkit_2"
version = "0.1.0"
edition = "2021"
publish = false

[dependencies]
railroad = "=0.3.11"
syn = { version = "=2.0.119", features = ["full"] }
quote = "=1.0.47"
proc-macro2 = { version = "=1.0.107", features = ["span-locations"] }
