[package]
name = "payrex"
version = "0.1.0"
edition = "2021"
publish = false

[dependencies]
syn = { version = "=2.0.119", features = ["full", "extra-traits"] }
quote = "=1.0.47"
proc-macro2 = "=1.0.107"
darling = "0.21"
serde = { version = "=1.0.229", features = ["derive"] }
serde_json = "=1.0.154"
serde_plain = "=1.0.2"
thiserror = "=2.0.21"
reqwest = { version = "=0.13.5", default-features = false, features = ["json", "query"] }
