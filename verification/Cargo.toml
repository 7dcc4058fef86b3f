[package]
name = "backup-tools"
version = "0.1.0"
edition = "2021"
publish = false

[dependencies]
anyhow = "1"
chrono = "0.4"
crossbeam = "0.8"
ctrlc = "3"
dotenvy = "0.15"
envy = "0.4"
nix = { version = "0.29", features = ["signal"] }
rustls = "0.23"
rustls-native-certs = "0.8"
rustls-pemfile = "2"
serde = { version = "1", features = ["derive"] }
tracing = "0.1"
tracing-subscriber = "0.3"
ureq = { version = "2", features = ["json"] }
url = "2"
