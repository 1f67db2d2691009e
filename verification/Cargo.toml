[package]
name = "cargo_ble"
version = "0.1.0"
edition = "2021"
publish = false

[dependencies]
anyhow = "1"
bluer = { version = "0.17", features = ["bluetoothd"] }
clap = { version = "4", features = ["derive"] }
crc = "3"
dotenv = "0.15"
futures = "0.3"
rand = "0.9"
tokio = { version = "1", features = ["macros", "rt", "time", "io-util"] }
