[package]
name = "error_front"
version = "0.1.0"
edition = "2021"
publish = false

[dependencies]
futures = "=0.3.34"
lazy_static = "=1.5.1"
tokio = { version = "=1.54.1", features = ["macros", "rt-multi-thread"] }
tracing = "=0.1.44"
tracing-subscriber = "=0.3.23"
volo = "=0.12.4"
volo-thrift = "=0.12.6"
