[package]
name = "faic_node"
version = "0.1.0"
edition = "2021"
publish = false

[dependencies]
bip39 = "2"
hex = "0.4"
rand = "0.8"
tiny-keccak = { version = "2", features = ["keccak"] }
actix-cors = "0.7"
actix-web = { version = "4", default-features = false, features = ["macros"] }
async-trait = "0.1"
chrono = { version = "0.4", default-features = false, features = ["clock"] }
env_logger = { version = "0.11", default-features = false }
log = "0.4"
serde = { version = "1", features = ["derive"] }
serde_json = "1"
tokio = { version = "1", features = ["net", "sync"] }
