[package]
name = "justbus"
version = "0.1.0"
edition = "2021"
publish = false

[dependencies]
dashmap = "=6.2.1"
serde_json = "=1.0.151"
actix-web = "=4.15.0"
lta = "=0.6.0"
parking_lot = "*"
