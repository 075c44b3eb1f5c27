[package]
name = "shadowsocks-gtk-rs"
version = "0.1.0"
edition = "2021"
publish = false

[dependencies]
derivative = "2"
duct = "0.13"
itertools = "0.10"
lazy_static = "1"
log = "0.4"
serde = { version = "1", features = ["derive"] }
serde_yaml = "0.8"
which = "4"
