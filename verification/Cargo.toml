[package]
name = "cleaner"
version = "0.10.1"
edition = "2021"
publish = false

[dependencies]
clap = { version = "=4.6.7", features = ["derive"] }
git2 = { version = "=0.21.0", features = ["cred"] }
inquire = "=0.9.4"
once_cell = "=1.21.4"
rayon = "=1.12.0"
serde = { version = "=1.0.229", features = ["derive"] }
serde_json = "=1.0.151"
