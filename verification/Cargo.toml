[package]
name = "section_keys"
version = "0.1.0"
edition = "2021"
publish = false

[dependencies]
threshold_crypto = "0.4"
xor_name = "1"
sn_data_types = "*"
serde = { version = "1", features = ["derive"] }

[dev-dependencies]
rand = "0.7"
