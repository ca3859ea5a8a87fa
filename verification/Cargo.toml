[package]
name = "er_archipelago"
version = "0.1.0"
edition = "2021"
publish = false

[dependencies]
anyhow = "*"
archipelago_rs = "*"
eldenring = "*"
fromsoftware-shared = "*"
ilhook = "*"
log = "*"
regex-macro = "*"
serde = { version = "*", features = ["derive"] }
