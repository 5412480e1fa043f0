[package]
name = "allure"
version = "0.1.0"
edition = "2021"
publish = false

[dependencies]
md-5 = "=0.10.6"
uuid = { version = "=1.27.0", features = ["v4"] }
hostname = "=0.4.2"
serde = "=1.0.229"
serde_json = "=1.0.151"

[dev-dependencies]
