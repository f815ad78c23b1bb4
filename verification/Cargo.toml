[package]
name = "rust_repl"
version = "0.1.0"
edition = "2021"
publish = false

[dependencies]
regex = "*"
rustyline = "*"
tempfile = "*"
