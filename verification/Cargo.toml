[package]
name = "nmkup"
version = "0.1.0"
edition = "2021"
publish = false

[dependencies]
xz2 = "*"
shell-words = "*"
reqwest = { version = "*", default-features = false, features = ["json"] }
tokio = { version = "*", features = ["rt", "macros"] }
serde = { version = "*", features = ["derive"] }
serde_json = "*"
tar = "*"
log = "*"
simplelog = "*"
dirs = "*"
structopt = "*"
toml = "*"
which = "*"
