[package]
name = "event_gateway"
version = "0.1.0"
edition = "2021"
publish = false

[dependencies]
dashmap = "*"
serde_json = "*"
serde = { version = "*", features = ["derive"] }
actix = "*"
actix-web = { version = "*", features = ["rustls-0_22"] }
actix-web-actors = "*"
actix-cors = "*"
redis = { version = "*", features = ["tokio-comp", "connection-manager"] }
tokio = { version = "*", features = ["rt", "macros"] }
rustls = "0.22"
rustls-pemfile = "2"
log = "*"
simple_logger = "*"
dotenvy = "*"
anyhow = "*"
async-trait = "*"
itertools = "*"
