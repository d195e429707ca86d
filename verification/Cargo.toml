[package]
name = "twiggy"
version = "0.1.0"
edition = "2021"
publish = false

[dependencies]
git2 = { version = "=0.18.3", default-features = false }
chrono = { version = "=0.4.45", features = ["serde"] }
serde = { version = "=1.0.229", features = ["derive"] }
serde_json = "=1.0.154"
thiserror = "=1.0.69"
directories = "=5.0.1"
tracing = "=0.1.44"
tracing-subscriber = { version = "=0.3.23", features = ["env-filter", "json"] }
tracing-appender = "=0.2.5"
egui = { version = "0.26", default-features = false, features = ["default_fonts"] }

[dev-dependencies]
tempfile = "=3.27.0"
