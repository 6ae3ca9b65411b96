[package]
name = "quiz_backend"
version = "0.1.0"
edition = "2021"
publish = false

[dependencies]
urlencoding = "=2.1.3"
base64 = "=0.22.1"
serde = { version = "=1.0.229", features = ["derive"] }
serde_json = "=1.0.154"
rand = "=0.8.8"
md5 = "=0.7.0"
jsonwebtoken = "=9.3.1"
chrono = "=0.4.45"
actix-web = "=4.18.1"
futures = "=0.3.34"
uuid = { version = "=1.29.0", features = ["v4"] }
actix-cors = "0.7"
sqlx = { version = "0.8", default-features = false, features = ["mysql", "runtime-tokio", "chrono"] }
reqwest = { version = "0.12", default-features = false, features = ["json", "rustls-tls"] }
redis = { version = "0.27", default-features = false, features = ["tokio-comp", "connection-manager"] }
