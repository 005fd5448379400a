[package]
name = "idvs"
version = "0.1.0"
edition = "2021"
publish = false

[dependencies]
serde = { version = "1", features = ["derive"] }
serde_json = "1"
nix = { version = "0.27", features = ["net", "process", "signal"] }
rfd = { version = "0.14", default-features = false, features = ["async-std", "xdg-portal"] }
egui = "0.27"
env_logger = { version = "0.11", default-features = false }
