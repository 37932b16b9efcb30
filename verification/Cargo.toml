[package]
name = "todo_app"
version = "0.1.0"
edition = "2021"
publish = false

[dependencies]
async-std = { version = "=1.13.2", features = ["attributes", "tokio1"] }
async-trait = "=0.1.92"
regex = "1"
rocket = { version = "=0.5.2", features = ["json"] }
sea-orm = { version = "=0.12.15", default-features = false, features = ["macros", "runtime-tokio-rustls", "sqlx-sqlite"] }
sea-orm-migration = { version = "=0.12.15", default-features = false, features = ["cli", "runtime-tokio-rustls", "sqlx-sqlite"] }
sea-orm-rocket = "=0.5.5"
sea-query = { version = "=0.30.7", default-features = false, features = ["backend-sqlite"] }
