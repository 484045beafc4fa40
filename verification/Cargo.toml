[package]
name = "dvr_manager"
version = "0.1.0"
edition = "2021"
publish = false

[dependencies]
chrono = "=0.4.45"
reqwest = { version = "=0.13.5", default-features = false, features = ["json", "query"] }
tokio = { version = "*", features = ["macros", "rt-multi-thread", "time", "sync"] }
serde = { version = "*", features = ["derive"] }
serde_json = "*"
serde_qs = "*"
serde-xml-rs = "*"
urlencoding = "*"
thiserror = "*"
futures = "*"
async-trait = "*"
log = "*"
env_logger = "*"
figment = { version = "*", features = ["env"] }
