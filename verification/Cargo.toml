[package]
name = "spotatui"
version = "0.1.0"
edition = "2021"
publish = false

[dependencies]
anyhow = "=1.0.104"
image = "=0.25.10"
log = "=0.4.35"
mlua = { version = "=0.10.5", features = ["lua54", "vendored", "serialize"] }
ratatui = { version = "=0.30.2", default-features = false }
ratatui-image = { version = "=11.1.0", default-features = false }
reqwest = { version = "=0.12.28", default-features = false, features = ["rustls-tls"] }
