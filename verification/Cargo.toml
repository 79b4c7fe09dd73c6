[package]
name = "wasm_disc"
version = "0.1.0"
edition = "2021"
publish = false

[dependencies]
cargo_toml = "*"
clap = { version = "*", features = ["derive"] }
fs_extra = "*"
