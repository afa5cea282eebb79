[package]
name = "db_healthcheck"
version = "0.1.0"
edition = "2021"
publish = false

[dependencies]
diesel = { version = "2", default-features = false, features = ["postgres", "r2d2"] }
once_cell = "1"
serde_json = "1"
tokio = { version = "1", features = ["macros", "rt-multi-thread", "time"] }
tracing = "0.1"
tracing-subscriber = "0.3"
warp = "0.3"
warp_lambda = "0.1"
