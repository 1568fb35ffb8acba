[package]
name = "cargo_debug"
version = "0.3.0"
edition = "2021"
publish = false

[dependencies]
anyhow = "1"
cargo_metadata = "*"
clap = { version = "4", features = ["derive"] }
ctrlc = "3"
log = "0.4"
vswhere = "*"
