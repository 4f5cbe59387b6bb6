[package]
name = "nft_mint_activity"
version = "0.1.0"
edition = "2021"
publish = false

[dependencies]
candid = "0.7"
chrono = "0.4"
ic-cdk = "0.5"
ic-cdk-macros = "0.5"
ic-certified-map = "0.3"
include-base64 = "0.1"
serde = { version = "1", features = ["derive"] }
sha2 = "0.10"
uriparse = "0.6"
