[package]
name = "ble_ws_sync"
version = "0.1.0"
edition = "2021"
publish = false

[dependencies]
indexmap = "*"
url = "*"
