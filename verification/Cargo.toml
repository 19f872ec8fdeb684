[package]
name = "kayfabe"
version = "0.1.0"
edition = "2021"
publish = false

[dependencies]
git2 = "*"
rand = "*"
toml = "*"
dirs = "*"
serde = { version = "*", features = ["derive"] }
thiserror = "*"
clap = { version = "*", features = ["derive"] }
clap_complete = "*"
console = "*"
dialoguer = "*"
indicatif = "*"

[dev-dependencies]
tempfile = "*"
