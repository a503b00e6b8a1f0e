[package]
name = "adapter_manager"
version = "0.1.0"
edition = "2021"
publish = false

[dependencies]
inotify = "*"
log = "0.4"
nix = { version = "*", features = ["signal"] }
tokio = { version = "1", features = ["full"] }

[dev-dependencies]
regex = "1"
