[package]
name = "traefik-pages"
version = "0.1.0"
edition = "2021"
publish = false

[dependencies]
actix-files = "0.5"
actix-web = "3"
actix-web-httpauth = "0.5"
constant_time_eq = "0.1"
env_logger = "0.8"
log = "0.4"
serde_json = "1"
tokio = { version = "0.2", features = ["full"] }
toml = "0.5"
url = "2"
