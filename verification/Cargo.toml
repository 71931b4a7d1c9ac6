[package]
name = "pamaxie_api"
version = "0.1.0"
edition = "2021"
publish = false

[dependencies]
blake2 = "*"
image = { version = "*", default-features = false, features = ["png", "jpeg", "gif", "webp"] }
infer = "*"
serde = { version = "*", features = ["derive"] }
serde_json = "*"
actix-web = { version = "*", default-features = false, features = ["macros"] }
reqwest = { version = "*", default-features = false }
tokio = { version = "*", features = ["rt-multi-thread", "time", "macros"] }
aws-config = "*"
aws-sdk-sqs = "*"
rust-s3 = { version = "*", default-features = false, features = ["tokio-rustls-tls"] }
jwt = "*"
