[package]
name = "validate_branchname"
version = "0.1.0"
edition = "2021"
publish = false

[dependencies]
git2 = { version = "*", default-features = false }
regex = "*"
clap = "*"

[dev-dependencies]
tempfile = "*"
