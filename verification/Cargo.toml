[package]
name = "reddyt"
version = "0.1.0"
edition = "2021"
publish = false

[dependencies]
actix-web = "=4.18.1"
actix_failwrap = "=1.0.3"
base64 = "=0.22.1"
chrono = { version = "=0.4.45", features = ["serde"] }
email_address = "=0.2.9"
envconfig = "=0.11.1"
jsonwebtoken = "=9.3.1"
log = "=0.4.35"
rand = "=0.9.5"
scrypt = "=0.11.0"
serde = { version = "=1.0.229", features = ["derive"] }
serde_json = "=1.0.154"
sqlx = { version = "=0.8.6", default-features = false, features = ["postgres", "runtime-tokio", "chrono", "migrate", "macros", "derive"] }
thiserror = "=2.0.21"
