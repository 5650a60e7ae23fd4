[package]
name = "restaurant"
version = "0.1.0"
edition = "2021"
publish = false

[dependencies]
base64 = "0.22"
config = { version = "0.14", default-features = false, features = ["json"] }
actix-web = { version = "4", default-features = false, features = ["macros"] }
actix-cors = "0.7"
sqlx = { version = "0.8", default-features = false, features = ["runtime-tokio", "postgres", "chrono", "derive"] }
tokio = { version = "1", features = ["macros", "rt-multi-thread", "sync", "time"] }
serde = { version = "1", features = ["derive"] }
serde_json = "1"
chrono = { version = "0.4", default-features = false, features = ["std", "serde"] }
log = "0.4"
env_logger = { version = "0.11", default-features = false }
prometheus = { version = "0.13", default-features = false }
lazy_static = "1"
sysinfo = { version = "0.33", default-features = false, features = ["system"] }
reqwest = { version = "0.12", default-features = false, features = ["json"] }
thiserror = "2"
