[package]
name = "yomi_dict"
version = "0.1.0"
edition = "2021"
publish = false

[dependencies]
wana_kana = "*"
rexie = "*"
serde = { version = "*", features = ["derive"] }
serde_json = "*"
serde-wasm-bindgen = "*"
thiserror = "*"
zip = { version = "*", default-features = false, features = ["deflate"] }
async-trait = "*"
futures = "*"
wasm-bindgen = "*"
