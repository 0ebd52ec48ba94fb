[package]
name = "ledgers"
version = "0.1.0"
edition = "2021"
publish = false

[dependencies]
ink_storage = "=3.0.0-rc4"
ink_env = "=3.0.0-rc4"
ink_primitives = "=3.0.0-rc4"
ink_prelude = "=3.0.0-rc4"
ink_allocator = "=3.0.0-rc4"
ink_metadata = "=3.0.0-rc4"
ink_storage_derive = "=3.0.0-rc4"
parity-scale-codec = { version = "2", features = ["derive"] }
