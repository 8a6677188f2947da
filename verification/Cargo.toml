[package]
name = "movies_api"
version = "0.1.0"
edition = "2021"
publish = false

[dependencies]
serde_json = "=1.0.151"
http-body-util = "0.1"
reqwest = { version = "=0.11.27", default-features = false, features = ["json"] }
tokio = { version = "=1.53.2", features = ["macros", "rt-multi-thread"] }
vercel_runtime = "=2.4.1"
