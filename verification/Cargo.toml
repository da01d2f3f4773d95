[package]
name = "gitweb"
version = "0.3.0"
edition = "2021"
publish = false

[dependencies]
git2 = "*"
open = "*"
structopt = "*"

[dev-dependencies]
regex = "*"
