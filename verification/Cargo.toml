[package]
name = "geostorm_alert_service"
version = "0.1.0"
edition = "2021"
publish = false

[dependencies]
chrono = { version = "0.4", features = ["serde"] }
serde = { version = "1", features = ["derive"] }
serde_json = "1"
sqlx = { version = "0.8", default-features = false, features = ["postgres", "runtime-tokio", "chrono", "migrate", "macros"] }
lapin = { version = "2", default-features = false }
tokio = { version = "1", features = ["macros", "rt-multi-thread", "time", "signal"] }
tokio-executor-trait = "2"
dotenvy = "0.15"
