[package]
name = "blog_frontend"
version = "0.1.0"
edition = "2021"
publish = false

[dependencies]
chrono = { version = "=0.4.45", features = ["serde"] }
reqwest = { version = "=0.11.27", default-features = false, features = ["json", "cookies"] }
rocket = { version = "=0.5.2", features = ["json"] }
rocket_dyn_templates = { version = "=0.1.0", features = ["tera"] }
serde = { version = "=1.0.229", features = ["derive"] }
serde_json = "=1.0.154"
tera = "=1.20.1"
thiserror = "=1.0.69"
url = "=2.5.8"
