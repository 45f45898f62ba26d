[package]
name = "pikacloud_backend"
version = "0.1.0"
edition = "2021"
publish = false

[dependencies]
md5 = "*"
bcrypt = "*"
chrono = "*"
uuid = { version = "*", features = ["v4"] }
serde = { version = "*", features = ["derive"] }
serde_json = "*"
reqwest = { version = "*", features = ["json"] }
diesel = { version = "*", features = ["postgres", "r2d2", "chrono"] }
redis = { version = "*", features = ["tokio-comp"] }
actix-web = "*"
actix-rt = "*"
actix-session = "*"
jsonwebtoken = "9"
tokio = { version = "*", features = ["sync"] }
futures-util = "*"
dotenvy = "*"
env_logger = "*"
log = "*"
thiserror = "*"
async-trait = "*"
