[package]
name = "ecs_run"
version = "0.1.0"
edition = "2021"
publish = false

[dependencies]
clap = "3"
tokio = { version = "1", features = ["rt-multi-thread"] }
rusoto_core = { version = "0.48", default-features = false, features = ["rustls"] }
rusoto_ecs = { version = "0.48", default-features = false, features = ["rustls"] }
rusoto_logs = { version = "0.48", default-features = false, features = ["rustls"] }
