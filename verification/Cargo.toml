[package]
name = "hike_to_mint"
version = "0.1.0"
edition = "2021"
publish = false

[dependencies]
anchor-lang = "*"
anchor-spl = { version = "*", features = ["token_2022"] }
spl-token-metadata-interface = "*"
