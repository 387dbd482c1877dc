[package]
name = "authcore"
version = "0.1.0"
edition = "2021"
publish = false

[dependencies]
argon2 = { version = "0.5", features = ["std"] }
jsonwebtoken = "9"
serde_json = "1"
chrono = "0.4"
uuid = { version = "1", features = ["v4"] }
serde = { version = "1", features = ["derive"] }
dotenvy = "0.15"
rocket = { version = "0.5", features = ["json"] }
rocket_dyn_templates = { version = "*", features = ["handlebars"] }
sqlx = { version = "0.8", default-features = false, features = ["postgres", "runtime-tokio"] }
