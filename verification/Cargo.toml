[package]
name = "chronology_gateway"
version = "0.1.0"
edition = "2021"
publish = false

[dependencies]
chrono = "=0.4.45"
actix-web = { version = "=4.18.1", default-features = false, features = ["macros"] }
awc = "=3.11.0"
actix-proxy = "=0.2.0"
serde_json = "=1.0.154"
env_logger = "=0.11.11"
log = "=0.4.35"
pretty_env_logger = "=0.5.0"
reqwest = { version = "=0.13.5", default-features = false }
tokio = { version = "=1.54.1", features = ["macros", "rt-multi-thread", "time"] }
jwt = "0.16"
hmac = "0.12"
sha2 = "0.10"
