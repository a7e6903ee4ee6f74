[package]
name = "sev_verification"
version = "0.1.0"
edition = "2021"
publish = false

[dependencies]
openssl = "0.10"
openssl-sys = "0.9"
foreign-types-shared = "0.1"
asn1-rs = "*"
serde = { version = "1", features = ["derive"] }
log = "0.4"
console_error_panic_hook = "0.1"
wasm-logger = "0.2"
