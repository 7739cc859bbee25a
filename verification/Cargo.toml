[package]
name = "drive_sync"
version = "0.1.0"
edition = "2021"
publish = false

[dependencies]
anyhow = "=1.0.104"
clap = { version = "=4.6.7", features = ["derive"] }
futures = "=0.3.34"
google-drive3 = { version = "=7.0.0+20251218", features = ["yup-oauth2-service-account"] }
http-body-util = "=0.1.5"
indicatif = "=0.18.6"
mime = "=0.3.17"
tokio = { version = "=1.53.2", features = ["rt-multi-thread", "macros", "time"] }
