[package]
name = "webwallet"
version = "0.1.0"
edition = "2021"
publish = false

[dependencies]
argon2 = "0.5"
base64 = "0.22"
bs58 = "0.5"
chacha20poly1305 = "0.10"
ed25519-dalek = { version = "2", features = ["rand_core"] }
rand_core = { version = "0.6", features = ["getrandom"] }
serde = { version = "1", features = ["derive"] }
serde_json = "1"
gloo-storage = "0.3"
gloo-timers = { version = "0.3", features = ["futures"] }
leptos = { version = "0.8", features = ["csr"] }
wasm-bindgen-futures = "0.4"
web-sys = { version = "0.3", features = ["Window", "Crypto", "Navigator", "Clipboard", "Request", "RequestInit", "Response", "Headers"] }
