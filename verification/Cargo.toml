[package]
name = "mutsura_api"
version = "0.1.0"
edition = "2021"
publish = false

[dependencies]
bson = { version = "2", features = ["chrono-0_4"] }
chrono = { version = "0.4", features = ["serde"] }
pulldown-cmark = { version = "0.12", default-features = false }
uuid = { version = "1", features = ["v4"] }
password-auth = "1"
mongodb = "3"
axum = "0.8"
axum-extra = { version = "0.10", features = ["typed-header", "cookie"] }
http = "1"
tower-http = { version = "0.6", features = ["cors"] }
tokio = { version = "1", features = ["full"] }
jsonwebtoken = "9"
serde = { version = "1", features = ["derive"] }
serde_json = "1"
clap = { version = "4", features = ["derive"] }
dotenv = "0.15"
futures = "0.3"
async-trait = "0.1"
time = "0.3"
