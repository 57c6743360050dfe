[package]
name = "contract_enclave"
version = "0.1.0"
edition = "2021"
publish = false

[dependencies]
heapless = "=0.7.17"
serde = { version = "=1.0.229", features = ["derive"] }
serde_json = "=1.0.154"
serde-json-core = "=0.5.1"
rocket = { version = "0.5.2", features = ["json"] }
sgx_types = "=1.1.1"
sgx_urts = "=1.1.1"
