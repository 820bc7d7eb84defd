[package]
name = "steel_flint"
version = "0.1.0"
edition = "2021"
publish = false

[dependencies]
rayon = "1"
rustc-hash = "2"
tokio = { version = "1", features = ["rt-multi-thread", "time"] }
toml = "0.9"
tracing = "0.1"
