[package]
name = "rs_api"
version = "0.1.0"
edition = "2021"
publish = false

[dependencies]
chrono = { version = "0.4", default-features = false, features = ["std", "clock"] }
uuid = { version = "1", features = ["v4"] }
yata = { version = "*", features = ["period_type_u16"] }
serde = { version = "1", features = ["derive"] }
serde_json = "1"
rayon = "1"
napi = "2"
napi-derive = "2"
