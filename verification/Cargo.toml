[package]
name = "eiyah"
version = "0.1.0"
edition = "2021"
publish = false

[dependencies]
anyhow = "1"
clap = { version = "4", features = ["derive"] }
libc = "0.2"
semver = "1"
serde = { version = "1", features = ["derive"] }
sha2 = "0.10"
toml = { version = "0.9", features = ["preserve_order"] }
ureq = { version = "3", features = ["json"] }
