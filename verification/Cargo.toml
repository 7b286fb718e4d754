[package]
name = "condo_plan_reporter_api"
version = "0.1.0"
edition = "2021"
publish = false

[dependencies]
sanitize-filename = "=0.6.0"
sqlx = { version = "=0.8.6", default-features = false, features = ["runtime-tokio", "postgres", "uuid", "chrono", "derive"] }
uuid = { version = "=1.29.1", features = ["v4", "serde"] }
chrono = { version = "=0.4.45", default-features = false, features = ["serde", "clock"] }
actix-web = { version = "=4.18.1", default-features = false, features = ["macros"] }
actix-cors = "=0.7.2"
actix-files = "=0.7.3"
actix-multipart = "=0.8.5"
tera = "=1.20.1"
wkhtmltopdf = "=0.4.0"
serde = { version = "=1.0.229", features = ["derive"] }
serde_json = "=1.0.154"
log = "=0.4.35"
futures = "=0.3.34"
bytes = "=1.12.1"
