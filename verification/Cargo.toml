[package]
name = "manifest_install"
version = "0.1.0"
edition = "2021"
publish = false

[dependencies]
cargo_toml = "=0.14.1"
clap = { version = "=3.2.25", features = ["derive"] }
clap-cargo = "=0.9.1"
clap_complete = "=3.2.5"
indicatif = "0.17"
which = "=4.4.2"
yansi = "=0.5.1"
