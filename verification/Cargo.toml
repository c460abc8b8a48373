[package]
name = "esmart_mqtt"
version = "0.1.0"
edition = "2021"
publish = false

[dependencies]
chrono = "0.4"
clap = { version = "4", features = ["derive", "env"] }
env_logger = "*"
log = "0.4"
rumqttc = "*"
serde = { version = "1", features = ["derive"] }
serde_json = "1"
tokio = { version = "1", features = ["rt-multi-thread", "macros", "sync", "time"] }
tokio-stream = "*"
tokio-xmpp = "*"
xmpp-parsers = "*"
