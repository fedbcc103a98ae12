[package]
name = "ncopds"
version = "0.1.0"
edition = "2021"
publish = false

[dependencies]
url = "*"
atom_syndication = "*"
roxmltree = "*"
infer = "*"
keyring = "*"
image = { version = "*", default-features = false, features = ["png", "jpeg"] }
reqwest = { version = "*", default-features = false }
tokio = { version = "*", features = ["rt-multi-thread", "sync", "macros"] }
notify = "*"
opener = "*"
toml = "*"
serde = { version = "*", features = ["derive"] }
chrono = { version = "*", default-features = false, features = ["clock"] }
