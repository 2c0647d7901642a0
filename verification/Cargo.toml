[package]
name = "soldier_core"
version = "0.1.0"
edition = "2021"
publish = false

[dependencies]
regex = "1"
fake = "4"
rhai = "1"
once_cell = "1"
anyhow = "1"
thiserror = "1"
async-trait = "0.1"
dotenv = "0.15"
poise = "0.6.2"
serenity = "0.12"
sea-orm = { version = "1", default-features = false, features = ["macros", "sqlx-postgres", "runtime-tokio-rustls", "with-uuid", "with-chrono"] }
sea-orm-migration = { version = "1", default-features = false, features = ["sqlx-postgres", "runtime-tokio-rustls"] }
sea-query = "0.32"
tokio = { version = "1", features = ["macros", "rt-multi-thread"] }
tracing = "0.1"
tracing-subscriber = { version = "0.3", features = ["env-filter"] }
