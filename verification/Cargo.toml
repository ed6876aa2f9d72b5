[package]
name = "acme-server"
version = "0.1.0"
edition = "2021"
publish = false

[dependencies]
actix-cors = "=0.7.2"
actix-identity = "=0.9.0"
actix-session = { version = "=0.11.0", features = ["redis-session"] }
actix-web = "=4.18.1"
anyhow = "=1.0.104"
askama = "=0.16.1"
base64 = "=0.23.1"
bcrypt = "=0.19.3"
chrono = { version = "=0.4.45", features = ["serde"] }
dotenv = "=0.15.0"
lettre = { version = "=0.11.23", default-features = false, features = ["builder", "smtp-transport"] }
rand = "=0.9.5"
reqwest = { version = "=0.13.5", default-features = false, features = ["rustls"] }
serde = { version = "=1.0.229", features = ["derive"] }
serde_json = "=1.0.154"
sqlx = { version = "=0.8.6", default-features = false, features = ["runtime-tokio", "postgres", "uuid", "chrono", "json", "derive"] }
urlencoding = "=2.1.3"
uuid = { version = "=1.29.0", features = ["serde"] }
validator = "=0.21.0"
