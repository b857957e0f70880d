[package]
name = "collab_broker"
version = "0.1.0"
edition = "2021"
publish = false

[dependencies]
rand = "=0.8.8"
actix = "0.13"
actix-rt = "2"
actix-web = { version = "4", default-features = false, features = ["macros", "ws"] }
actix-web-actors = "4"
bytestring = "1"
serde = { version = "1", features = ["derive"] }
serde_json = "1"
reqwest = { version = "0.11", default-features = false, features = ["json"] }
redis = { version = "0.23", default-features = false }
log = "0.4"
env_logger = { version = "0.10", default-features = false }
dotenv = "0.15"
