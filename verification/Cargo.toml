[package]
name = "cargo_msrv"
version = "0.1.0"
edition = "2021"
publish = false

[dependencies]
bisector = "=1.0.0"
rust-releases = { version = "=0.22.2", default-features = false }
semver = "=1.0.28"
toml_edit = "=0.19.15"
serde = { version = "=1.0.229", features = ["derive"] }
serde_json = "=1.0.154"
thiserror = "=1.0.69"
camino = "=1.2.6"
cargo_metadata = "=0.23.1"
comfy-table = "=8.0.1"
console = "=0.16.6"
indicatif = "=0.18.6"
owo-colors = "=4.4.0"
once_cell = "=1.21.4"
storyteller = "=1.0.1"
