[package]
name = "beacon_scanner"
version = "0.1.0"
edition = "2021"
publish = false

[dependencies]
bytebuffer = "=2.3.0"
uuid = "=1.29.0"
simple-error = "=0.3.3"
anyhow = "=1.0.104"
ctrlc = "=3.5.2"
env_logger = "=0.11.11"
futures = "=0.3.34"
paho-mqtt = "=0.14.0"
rand = "=0.10.3"
rumble = "=0.3.0"
tokio = "=1.54.1"
blurz = "=0.4.0"
stomp = "*"
