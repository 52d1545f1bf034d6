[package]
name = "jolonel"
version = "0.1.0"
edition = "2021"
publish = false

[dependencies]
chrono = "=0.4.45"
clap = { version = "=4.6.7", features = ["derive"] }
sqlx = { version = "=0.8.6", default-features = false, features = ["runtime-tokio", "postgres", "chrono", "migrate"] }
tokio = { version = "=1.54.1", features = ["full"] }
thiserror = "=1.0.69"
lazy_static = "=1.5.1"
rusqlite = { version = "=0.32.1", features = ["bundled"] }
