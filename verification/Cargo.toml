[package]
name = "pgwire_codec"
version = "0.1.0"
edition = "2021"
publish = false

[dependencies]
async-trait = "0.1"
bytes = "1"
bytesize = "1"
futures = "0.3"
tokio = { version = "1", features = ["io-util", "net", "time"] }
tokio-util = { version = "0.7", features = ["codec"] }
tracing = "0.1"
