[package]
name = "shooting_star"
version = "0.1.0"
edition = "2021"
publish = false

[dependencies]
url = "2"
clap = { version = "4", features = ["derive"] }
native-tls = "0.2"
tokio = { version = "1", features = ["macros", "rt-multi-thread", "net", "io-util"] }
tokio-native-tls = "0.3"
