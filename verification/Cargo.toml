[package]
name = "ytjobs"
version = "0.1.0"
edition = "2021"
publish = false

[dependencies]
serde = { version = "*", features = ["derive"] }
serde_json = "*"
tokio = { version = "*", features = ["rt-multi-thread", "macros", "process", "io-util", "sync"] }
reqwest = { version = "*", default-features = false, features = ["json"] }
dotenv = "*"
