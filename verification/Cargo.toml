[package]
name = "depot_core"
version = "0.1.0"
edition = "2021"
publish = false

[dependencies]
fuzzy-matcher = "=0.3.7"
toml = "=1.2.1"
indexmap = "=2.14.2"
hashbrown = "=0.17.1"
getrandom = "=0.3.4"
libloading = "=0.9.0"
mlua = { version = "=0.12.2", features = ["lua54", "vendored"] }
parking_lot = "=0.12.5"
serde = { version = "1", features = ["derive"] }
calculator-rs = "*"
