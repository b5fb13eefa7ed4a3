[package]
name = "kosher_calendar"
version = "0.1.0"
edition = "2021"
publish = false

[dependencies]
icu_calendar = "2"
serde = { version = "1", features = ["derive"] }
wasm-bindgen = "0.2"
serde-wasm-bindgen = "0.6"
