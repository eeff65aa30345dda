[package]
name = "firm_api"
version = "0.1.0"
edition = "2021"
publish = false

[dependencies]
bcrypt = "=0.19.3"
serde = { version = "=1.0.229", features = ["derive"] }
jsonwebtoken = "=11.1.0"
chrono = "=0.4.45"
tokio = { version = "=1.53.2", features = ["macros", "rt-multi-thread"] }
sqlx = { version = "=0.9.0", default-features = false, features = ["runtime-tokio", "sqlite", "chrono", "derive"] }
poem = "=3.1.12"
poem-openapi = "=5.1.16"
