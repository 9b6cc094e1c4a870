[package]
name = "cargo_remote"
version = "0.1.0"
edition = "2021"
publish = false

[dependencies]
serde = { version = "*", features = ["derive"] }
toml = "*"
structopt = "*"
cargo_metadata = "*"
xdg = "*"
log = "*"
simple_logger = "*"
