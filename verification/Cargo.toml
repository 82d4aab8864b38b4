[package]
name = "tibco_ems"
version = "0.1.0"
edition = "2021"
publish = false

[dependencies]
futures = "0.3"
log = "0.4"
opentelemetry = "0.18"
serde = { version = "1", features = ["derive"] }
tibco_ems-sys = "*"
