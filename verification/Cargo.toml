[package]
name = "sql_inspector"
version = "0.1.0"
edition = "2021"
publish = false

[dependencies]
sqlparser = { version = "0.51.0", features = ["visitor"] }
serde = { version = "1", features = ["derive"] }
serde-wasm-bindgen = "0.6"
wasm-bindgen = "0.2"
