[package]
name = "guwen"
version = "0.1.0"
edition = "2021"
publish = false

[dependencies]
cursive = "*"
log = "*"
log4rs = "*"
rand = "*"
reqwest = { version = "*", default-features = false, features = ["blocking", "json"] }
serde = { version = "*", features = ["derive"] }
thiserror = "*"
