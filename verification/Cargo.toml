[package]
name = "candle_embeddings"
version = "0.1.0"
edition = "2021"
publish = false

[dependencies]
candle-core = "*"
candle-nn = "*"
candle-transformers = "*"
tokenizers = { version = "*", default-features = false, features = ["unstable_wasm"] }
serde_json = "*"
wasm-bindgen = "*"
js-sys = "*"
