[package]
name = "bread"
version = "0.1.0"
edition = "2021"
publish = false

[dependencies]
rust-argon2 = "=2.1.0"
password-hash = { version = "=0.5.0", features = ["rand_core", "getrandom"] }
jsonwebtoken = { version = "=9.3.1", default-features = false }
serde_json = "=1.0.151"
serde = { version = "=1.0.229", features = ["derive"] }
mongodb = { version = "=2.8.2", default-features = false, features = ["sync"] }
dotenv = "=0.15.0"
