[package]
name = "proxyl"
version = "0.1.0"
edition = "2021"
publish = false

[dependencies]
toml = { version = "0.8", features = ["preserve_order"] }
regex = "1"
clap = { version = "4", features = ["derive"] }
dirs = "*"
hudsucker = { version = "0.20", features = ["openssl-ca", "rustls-client"] }
notify = "*"
rpassword = "*"
tokio = { version = "1", features = ["full"] }
