[package]
name = "persistent_structs"
version = "0.1.0"
edition = "2021"

[dependencies]
quote = "1"
syn = { version = "2", features = ["full", "extra-traits"] }
