[package]
name = "callm"
version = "0.1.0"
edition = "2021"
publish = false

[dependencies]
candle-core = "*"
candle-nn = "*"
candle-transformers = "*"
minijinja = "*"
serde_json = "*"
tokenizers = "*"
