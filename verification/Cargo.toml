[package]
name = "pioki"
version = "0.1.0"
edition = "2021"
publish = false

[dependencies]
actix-web = "4"
bigdecimal = { version = "0.4", features = ["serde"] }
chrono = { version = "0.4", features = ["serde"] }
diesel = { version = "2", features = ["postgres", "r2d2", "chrono", "numeric"] }
dotenv = "0.15"
futures = "0.3"
google-oauth = "*"
log = "0.4"
once_cell = "1"
r2d2 = "0.8"
serde = { version = "1", features = ["derive"] }
serde_json = "1"
tokio = { version = "1", features = ["rt", "macros"] }
validator = { version = "*", features = ["derive"] }
