[package]
name = "scream"
version = "0.1.0"
edition = "2021"
publish = false

[dependencies]
console_error_panic_hook = "=0.1.7"
dioxus = "=0.3.2"
dioxus-web = "=0.3.2"
gloo-timers = { version = "=0.2.6", features = ["futures"] }
log = "0.4"
nostr-sdk = { version = "=0.22.0", default-features = false, features = ["nip19"] }
tokio = { version = "=1.54.1", features = ["time"] }
wasm-logger = "=0.2.0"
