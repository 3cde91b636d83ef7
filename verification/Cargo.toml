[package]
name = "vscs_farm"
version = "0.1.0"
edition = "2021"
publish = false

[dependencies]
base64 = "0.22"
clap = { version = "4", features = ["derive", "env"] }
log = "0.4"
pretty_env_logger = "0.5"
rand = "0.8"
serde_json = "1"
tokio = { version = "1", features = ["macros", "process", "rt-multi-thread"] }
warp = "0.3"
