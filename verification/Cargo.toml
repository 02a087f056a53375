[package]
name = "api_gateway"
version = "0.1.0"
edition = "2021"
publish = false

[dependencies]
actix-cors = "0.7"
actix-service = "2"
actix-web = { version = "4", default-features = false, features = ["macros"] }
chrono = { version = "0.4", features = ["serde"] }
env_logger = "0.11"
futures = "0.3"
itertools = "0.13"
jsonwebtoken = "9"
log = "0.4"
prost = "0.13"
prost-types = "0.13"
reqwest = { version = "0.12", default-features = false }
serde = { version = "1", features = ["derive"] }
serde_json = "1"
thiserror = "1"
tokio = { version = "1", features = ["rt"] }
tonic = { version = "0.12", default-features = false, features = ["channel", "codegen", "prost"] }
