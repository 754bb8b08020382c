[package]
name = "rise_code"
version = "0.1.0"
edition = "2021"
publish = false

[dependencies]
regex = "1"
discord-rich-presence = "0.2"
tokio = { version = "1", features = ["rt-multi-thread", "macros", "net", "sync", "time", "io-util"] }
log = "0.4"
fern = "0.6"
chrono = "0.4"
