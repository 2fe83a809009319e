[package]
name = "odata_gateway"
version = "0.1.0"
edition = "2021"
publish = false

[dependencies]
parse-sap-atom-feed = "*"
serde = { version = "*", features = ["derive"] }
serde_json = "*"
actix-web = "*"
reqwest = { version = "*", default-features = false }
tinytemplate = "*"
log = "*"
env_logger = "*"
