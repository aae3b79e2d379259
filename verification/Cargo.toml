[package]
name = "backend"
version = "0.1.0"
edition = "2021"
publish = false

[dependencies]
argon2 = { version = "=0.5.3", features = ["std"] }
jsonwebtoken = "=9.3.1"
serde_json = { version = "=1.0.154", features = ["preserve_order"] }
chrono = { version = "=0.4.45", features = ["serde"] }
time = "=0.3.55"
slug = "=0.1.6"
comrak = { version = "=0.57.0", default-features = false }
ammonia = "=4.2.4"
serde = { version = "=1.0.229", features = ["derive"] }
serde_yaml = "=0.9.34"
rocket = { version = "=0.5.1", features = ["json"] }
rocket_db_pools = { version = "=0.2.0", features = ["sqlx_postgres"] }
rocket_okapi = { version = "=0.9.0", features = ["swagger", "rocket_db_pools"] }
sqlx = { version = "=0.7.4", default-features = false, features = ["macros", "postgres", "chrono"] }
figment = { version = "=0.10.19", features = ["env"] }
dotenvy = "=0.15.7"
once_cell = "=1.21.4"

[dev-dependencies]
regex = "=1.13.1"
