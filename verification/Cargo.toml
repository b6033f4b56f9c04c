[package]
name = "nu_plugin_umoka"
version = "0.1.0"
edition = "2021"
publish = false
rust-version = "1.95"

[dependencies]
micro-moka = "=1.3.0"
nu-plugin = "=0.112.2"
nu-protocol = "=0.112.2"
