[package]
name = "mqtt_presence_checker"
version = "0.1.0"
edition = "2021"
publish = false

[dependencies]
anyhow = "*"
clap = { version = "*", features = ["derive"] }
confy = "*"
directories = "*"
log = "*"
rumqttc = "*"
serde = { version = "*", features = ["derive"] }
serde_json = "*"
stderrlog = "*"
uuid = { version = "*", features = ["v4"] }
