[package]
name = "llm_plugin_utils"
version = "0.1.0"
edition = "2021"
publish = false

[dependencies]
url = "2"
utoipa = { version = "3", features = ["yaml", "axum_extras"] }
axum = "0.6"
hyper = { version = "0.14", features = ["full"] }
tokio = { version = "1", features = ["macros", "rt-multi-thread"] }
serde = { version = "1", features = ["derive"] }
serde_json = "1"
sea-orm = { version = "0.11", default-features = false, features = ["macros", "sqlx-postgres", "runtime-tokio-rustls"] }
sea-orm-migration = { version = "0.11", default-features = false, features = ["sqlx-postgres", "runtime-tokio-rustls"] }
dotenv = "0.15"
