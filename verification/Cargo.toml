[package]
name = "wedding_vanulio2025"
version = "0.1.0"
edition = "2021"
publish = false

[dependencies]
tera = { version = "=1.20.1", default-features = false }
uuid = { version = "=1.29.0", features = ["v4"] }
serde = { version = "1", features = ["derive"] }
serde_json = "1"
bytes = "1"
vercel_blob = "=0.1.0"
mail-send = "=0.5.2"
vercel_runtime = "=1.1.6"
tokio = { version = "1", features = ["macros", "rt-multi-thread"] }
url = "2"
csv = "1"
