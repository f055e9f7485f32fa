[package]
name = "device_supervisor"
version = "0.1.0"
edition = "2021"
publish = false

[dependencies]
uuid = { version = "=1.29.0", features = ["v4"] }
serde = { version = "=1.0.229", features = ["derive"] }
serde_json = "=1.0.154"
parking_lot = "=0.12.5"
log = "=0.4.34"
rppal = "=0.22.1"
sysfs_gpio = "=0.6.2"
sysfs-pwm = "=0.1.0"
i2c-linux = "=0.1.2"
nmea = "*"
ctrlc = "*"
simple_logger = "*"
