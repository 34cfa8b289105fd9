[package]
name = "scx_utils"
version = "0.1.0"
edition = "2021"
publish = false

[dependencies]
anyhow = "=1.0.104"
bindgen = "=0.69.5"
glob = "=0.3.4"
libbpf-cargo = "=0.22.1"
tar = "=0.4.46"

[dev-dependencies]
regex = "=1.13.1"
