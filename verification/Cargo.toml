[package]
name = "course_backend"
version = "0.1.0"
edition = "2021"
publish = false

[dependencies]
rocket = "=0.5.2"
rocket_dyn_templates = { version = "0.2", features = ["tera"] }

[dev-dependencies]
serde_json = "=1.0.154"
