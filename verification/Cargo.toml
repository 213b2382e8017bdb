[package]
name = "bloop_client_framework"
version = "1.0.0"
edition = "2021"
publish = false

[dependencies]
bloop-protocol = "*"
gpiocdev = "*"
linux-embedded-hal = "*"
mfrc522 = "*"
rodio = "*"
rustls = "0.23"
rustls-platform-verifier = "*"
thiserror = "2"
tokio = { version = "1", features = ["fs", "macros", "net", "rt", "rt-multi-thread", "sync", "time"] }
tokio-graceful-shutdown = "*"
tokio-io-timeout = "1"
tokio-rustls = "0.26"
tracing = "0.1"
uuid = "1"
