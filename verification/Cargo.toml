[package]
name = "petclinic"
version = "0.1.0"
edition = "2021"
publish = false

[dependencies]
actix-files = "=0.6.10"
actix-web = "=4.18.1"
actix-web-flash-messages = { version = "=0.5.1", features = ["cookies"] }
chrono = { version = "=0.4.45", features = ["serde"] }
quick-xml = { version = "=0.42.0", features = ["serialize"] }
regex = "=1.13.1"
sea-orm = { version = "=1.1.20", default-features = false, features = ["macros", "sqlx-mysql", "runtime-tokio-rustls", "with-chrono"] }
serde = { version = "=1.0.229", features = ["derive"] }
serde_json = "=1.0.154"
tera = { version = "=1.20.1", default-features = false }
thiserror = "=2.0.21"
tokio = { version = "=1.54.1", features = ["macros"] }
