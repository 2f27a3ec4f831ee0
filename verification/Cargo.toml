[package]
name = "magnetite_cache"
version = "0.1.0"
edition = "2021"
publish = false

[dependencies]
dashmap = "=4.0.2"
chrono = "=0.4.45"
serde = { version = "=1.0.229", features = ["derive"] }
serde_json = "=1.0.154"
thiserror = "=1.0.69"
async-trait = "=0.1.92"
log = "=0.4.34"
futures = "=0.3.34"
lazy_static = "=1.5.1"
actix = "=0.13.5"
actix-web = { version = "=4.18.1", default-features = false, features = ["macros"] }
redis = { version = "=0.23.5", features = ["tokio-comp", "connection-manager"] }
reqwest = "=0.11.27"
libxml = "=0.2.16"
rss = { version = "=2.1.2", features = ["with-serde"] }
ajson = "=0.2.4"
simple_logger = "=4.3.3"
structopt = "=0.3.26"
toml = "=0.5.11"
config = { version = "=0.11.0", default-features = false, features = ["toml"] }
directories = "=4.0.1"
