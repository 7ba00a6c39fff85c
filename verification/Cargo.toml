[package]
name = "kairpods"
version = "0.1.0"
edition = "2021"
publish = false

[dependencies]
smallvec = "1"
smol_str = "0.3"
heapless = "0.8"
rand = "0.8"
bluer = { version = "0.17", features = ["bluetoothd", "l2cap"] }
crossbeam = "0.8"
dirs = "5"
env_logger = "0.11"
futures = "0.3"
heed = "0.20"
hex = "0.4"
libc = "0.2"
log = "0.4"
parking_lot = "0.12"
serde = { version = "1", features = ["derive"] }
serde_json = "1"
thiserror = "2"
tokio = { version = "1", features = ["full"] }
uuid = "1"
zbus = { version = "5", default-features = false, features = ["tokio"] }
