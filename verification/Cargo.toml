[package]
name = "github-grid"
version = "0.1.0"
edition = "2021"
publish = false

[dependencies]
chrono = "0.4"
clap = { version = "4", features = ["derive"] }
git2 = "*"
indicatif = "0.17"
rand = "0.9"
rand_chacha = "0.9"
