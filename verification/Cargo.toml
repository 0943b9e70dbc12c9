[package]
name = "git_core"
version = "0.1.0"
edition = "2021"
publish = false

[dependencies]
git2 = { version = "0.20", default-features = false, features = ["https"] }
itertools = "*"
clap = { version = "*", features = ["derive"] }
addin1c = "*"
log = "*"
simple-logging = "*"
