[package]
name = "indexdb_es"
version = "0.1.0"
edition = "2021"
publish = false

[dependencies]
anyhow = "=1.0.104"
async-trait = "=0.1.92"
console_error_panic_hook = "=0.1.7"
cqrs-es = "=0.4.12"
futures = "=0.3.34"
gloo-utils = { version = "=0.2.0", features = ["serde"] }
idb = "=0.4.1"
serde = { version = "=1.0.229", features = ["derive"] }
serde_json = "=1.0.154"
serde-wasm-bindgen = "=0.6.5"
wasm-bindgen = "=0.2.130"
wasm-bindgen-futures = "=0.4.80"
web-sys = { version = "=0.3.107", features = ["console"] }
