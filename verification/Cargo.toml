[package]
name = "vcard_qr"
version = "0.1.0"
edition = "2021"
publish = false

[dependencies]
qrcode = "=0.14.1"
image = { version = "=0.25.10", default-features = false, features = ["png"] }
base64 = "=0.23.1"
bcrypt = "=0.19.3"
serde = { version = "*", features = ["derive"] }
tokio = { version = "*", features = ["rt-multi-thread", "macros", "net"] }
axum = "*"
sqlx = { version = "=0.8.6", features = ["runtime-tokio", "sqlite"] }
tower-http = { version = "*", features = ["fs"] }
tower-sessions = "=0.14.0"
tower-sessions-sqlx-store = { version = "=0.15.0", features = ["sqlite"] }
