[package]
name = "creep_core"
version = "0.1.0"
edition = "2021"
publish = false

[dependencies]
rand = { version = "0.8", features = ["small_rng"] }
log = "0.4"
serde = { version = "1.0", features = ["derive"] }
wasm-bindgen = "0.2"
js-sys = "0.3"
gloo-utils = { version = "0.2", features = ["serde"] }
screeps-game-api = "*"
