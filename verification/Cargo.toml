[package]
name = "iot_fleet"
version = "0.1.0"
edition = "2021"
publish = false

[dependencies]
actix-web = { version = "4", default-features = false, features = ["macros"] }
actix-web-httpauth = "0.8"
chrono = { version = "0.4", features = ["serde"] }
chrono-tz = "*"
dotenv = "0.15"
eui48 = "1"
futures = "0.3"
futures-util = "0.3"
log = "0.4"
log4rs = "1"
mongodb = "3"
once_cell = "1"
paho-mqtt = "*"
scrypt = "0.11"
serde = { version = "1", features = ["derive"] }
serde_json = "1"
sqlx = { version = "0.8", default-features = false, features = ["runtime-tokio", "postgres", "uuid", "chrono", "derive"] }
tokio = { version = "1", features = ["rt-multi-thread", "macros", "sync", "time"] }
tokio-util = "0.7"
uuid = { version = "1", features = ["v4", "serde"] }
