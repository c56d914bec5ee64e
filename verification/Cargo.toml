[package]
name = "rustygitprompt"
version = "0.1.0"
edition = "2021"
publish = false

[dependencies]
git2 = { version = "*", default-features = false }
ansi_term = "*"
clap = { version = "*", features = ["derive"] }

[dev-dependencies]
tempfile = "*"
