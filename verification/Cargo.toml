[package]
name = "hailo"
version = "0.1.0"
edition = "2021"
publish = false

[dependencies]
halo2_proofs = "0.3"
group = "0.13"
rand_core = { version = "0.6", features = ["getrandom"] }
js-sys = "0.3"
wasm-bindgen = "0.2"
