[package]
name = "animal_service"
version = "0.1.0"
edition = "2021"
publish = false

[dependencies]
uuid = { version = "1", features = ["v4", "serde"] }
serde = { version = "1", features = ["derive"] }
serde_json = "1"
tide = "0.16"
tera = "1"
tide-tera = "0.2"
async-std = { version = "1", features = ["attributes"] }
dotenv = "0.15"
sqlx = { version = "*", default-features = false, features = ["runtime-async-std", "postgres", "uuid"] }
