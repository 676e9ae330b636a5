[package]
name = "marketplace_api"
version = "0.1.0"
edition = "2021"
publish = false

[dependencies]
actix-web = "4"
bcrypt = "*"
bigdecimal = { version = "0.4", features = ["serde"] }
chrono = { version = "0.4", features = ["serde"] }
diesel = { version = "2", features = ["postgres", "r2d2", "chrono", "numeric"] }
dotenvy = "0.15"
futures-util = "0.3"
jsonwebtoken = "9"
serde = { version = "1", features = ["derive"] }
serde_json = { version = "1", features = ["raw_value"] }
