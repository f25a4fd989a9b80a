[package]
name = "lovelock"
version = "0.1.0"
edition = "2021"
publish = false

[dependencies]
semver = "1"
serde = { version = "1", features = ["derive"] }
serde_json = "1"
reqwest = { version = "0.12", default-features = false, features = ["blocking", "json", "rustls-tls"] }
rand = "0.9"
dirs = "6"
tempfile = "3"
steamlocate = "2"
log = "0.4"
thiserror = "2"
egui = "0.31"
egui-phosphor = "0.9"
