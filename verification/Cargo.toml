[package]
name = "pinyin"
version = "0.1.0"
edition = "2021"
publish = false

[dependencies]
nohash-hasher = "0.2"
percent-encoding = "2"
serde = { version = "1", features = ["derive"] }
lazy_static = "1"
tokio = { version = "1", features = ["macros", "rt"] }
warp = "0.3"
env_logger = "0.10"
utoipa = "3"
utoipa-swagger-ui = "3"

[dev-dependencies]
nom = "7"
modular-bitfield = "0.11"
strum_macros = "0.24"
