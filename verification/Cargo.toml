[package]
name = "bt_sensor"
version = "0.1.5"
edition = "2021"
publish = false

[dependencies]
base64 = "0.13"
dbus = "0.6"
docopt = "1"
env_logger = "0.6"
influx_db_client = "0.3"
log = "0.4"
serde = { version = "1", features = ["derive"] }
serde_json = "1"
