[package]
name = "tls_client_stream"
version = "0.1.0"
edition = "2021"
publish = false

[dependencies]
tokio = { version = "1", features = ["net", "rt", "io-util"] }
native-tls = "0.2"
tokio-native-tls = "0.3"
futures-util = "0.3"
