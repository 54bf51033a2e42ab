[package]
name = "bundler_upgraded"
version = "0.1.0"
edition = "2021"
publish = false

[dependencies]
semver = "1"
rquery = "*"
axum = "*"
tokio = { version = "1", features = ["rt-multi-thread", "macros", "net"] }
reqwest = { version = "*", default-features = false, features = ["blocking"] }
redis = "*"
log = "0.4"
env_logger = "*"
