[package]
name = "sentry_conduit"
version = "0.1.0"
edition = "2021"
publish = false

[dependencies]
conduit = "=0.10.0"
conduit-middleware = "=0.10.0"
conduit-router = "=0.10.0"
sentry-core = { version = "=0.49.3", features = ["client", "release-health"] }
url = "=2.5.8"
