[package]
name = "tuicr"
version = "0.1.0"
edition = "2021"
publish = false

[dependencies]
shlex = "1.3"
git2 = { version = "0.20", default-features = false }
chrono = { version = "0.4", features = ["serde"] }
serde = { version = "1", features = ["derive"] }
thiserror = "2"

[dev-dependencies]
tempfile = "3"
