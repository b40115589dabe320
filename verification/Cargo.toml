[package]
name = "fishy_edge"
version = "0.1.0"
edition = "2021"
publish = false

[dependencies]
actix-web = "=4.18.1"
actix-web-httpauth = "=0.8.3"
actix-web-lab = "=0.18.9"
anyhow = "=1.0.104"
argon2 = { version = "=0.4.1", features = ["std"] }
chrono = { version = "=0.4.45", default-features = false, features = ["clock", "serde"] }
rand = { version = "=0.8.8", features = ["std_rng"] }
rust-s3 = { version = "=0.33.0", default-features = false, features = ["sync-rustls-tls"] }
secrecy = { version = "=0.8.0", features = ["serde"] }
serde = { version = "=1.0.229", features = ["derive"] }
sqlx = { version = "=0.7.4", default-features = false, features = ["runtime-tokio", "postgres", "uuid", "chrono", "macros"] }
thiserror = "=1.0.69"
tokio = { version = "=1.54.1", features = ["macros", "rt-multi-thread"] }
tracing = { version = "=0.1.44", features = ["log"] }
tracing-actix-web = "=0.7.25"
tracing-subscriber = { version = "=0.3.23", features = ["env-filter"] }
uuid = { version = "=1.29.0", features = ["v4", "serde"] }
