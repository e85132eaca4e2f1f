[package]
name = "route_table"
version = "0.1.0"
edition = "2021"
publish = false

[dependencies]
axum = "=0.6.20"
tokio = { version = "=1.53.2", features = ["macros", "rt-multi-thread", "fs"] }
tower-http = { version = "=0.4.4", features = ["trace"] }
tracing = "=0.1.44"
tracing-subscriber = "=0.3.23"

[dev-dependencies]
hyper = { version = "=0.14.32", features = ["client", "http1", "tcp"] }
