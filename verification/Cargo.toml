[package]
name = "ledger_composer"
version = "0.1.0"
edition = "2021"
publish = false

[dependencies]
miden-client = { version = "=0.11.11", features = ["tonic", "sqlite"] }
miden-core = "=0.17.2"
miden-lib = "=0.11.5"
miden-mast-package = "=0.17.2"
miden-objects = "=0.11.5"
rand = "=0.9.5"
temp-dir = "=0.1.16"
tokio = { version = "=1.54.1", features = ["rt-multi-thread", "macros"] }

[dev-dependencies]
miden-testing = "0.11"
