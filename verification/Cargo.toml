[package]
name = "httpse_client"
version = "0.1.0"
edition = "2021"
publish = false

[dependencies]
https-everywhere-lib-core = { version = "=0.1.2", default-features = false, features = ["add_rulesets", "potentially_applicable"] }
serde_json = "=1.0.154"
regex = "=1.13.1"
url = "=2.5.8"
