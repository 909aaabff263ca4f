[package]
name = "recommend_server"
version = "0.1.0"
edition = "2021"
publish = false

[dependencies]
anyhow = "1"
bytes = "1"
diesel = { version = "1.4", features = ["mysql", "r2d2"] }
dotenv = "0.15"
env_logger = "*"
futures = "0.3"
google-jwt-verify = "*"
http = "0.2"
r2d2 = "0.8"
reqwest = { version = "0.11", features = ["json"] }
serde = { version = "1", features = ["derive"] }
serde_derive = "1"
serde_json = "1"
tokio = { version = "1", features = ["full"] }
warp = { version = "0.3", features = ["tls"] }
