[package]
name = "ddlog_rt"
version = "0.1.0"
edition = "2021"
publish = false

[dependencies]
serde = { version = "=1.0.229", features = ["derive"] }
erased-serde = "=0.4.10"
abomonation = "=0.7.3"
ordered-float = "=5.5.0"
