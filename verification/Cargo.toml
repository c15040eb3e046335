[package]
name = "better_posthog"
version = "0.1.0"
edition = "2021"
publish = false

[dependencies]
log = "0.4"
os_info = "3"
reqwest = { version = "0.12", features = ["blocking"] }
semver = "1"
serde = { version = "1", features = ["derive"] }
serde_json = "1"
uuid = { version = "1", features = ["v4", "v7"] }
