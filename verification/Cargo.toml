[package]
name = "structgen"
version = "0.1.0"
edition = "2021"
publish = false

[dependencies]
app_properties = "*"
sqlx = { version = "*", default-features = false, features = ["runtime-tokio", "postgres"] }
tokio = { version = "*", features = ["macros", "rt-multi-thread"] }
serde = { version = "*", features = ["derive"] }
bigdecimal = { version = "*", features = ["serde"] }
