[package]
name = "auth_core"
version = "0.1.0"
edition = "2021"
publish = false

[dependencies]
argon2 = "0.4"
bytes = "1"
csrf = "0.4"
dashmap = "5"
data-encoding = "2"
futures-util = "0.3"
getrandom = "0.2"
jsonwebtoken = "8"
oauth2 = { version = "4", default-features = false }
password-hash = "0.4"
rand_core = { version = "0.6", features = ["getrandom"] }
reqwest = { version = "0.11", default-features = false }
serde = { version = "1", features = ["derive"] }
serde_json = "1"
serde_urlencoded = "0.7"
tokio = { version = "1", features = ["rt-multi-thread", "macros", "time", "fs", "io-util", "sync"] }
toml = "0.5"
warp = "0.3"
