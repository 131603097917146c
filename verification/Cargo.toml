[package]
name = "moji"
version = "0.1.0"
edition = "2021"
publish = false

[dependencies]
anyhow = "1"
clap-verbosity-flag = "0.3"
env_logger = "0.9"
image = "0.25"
imageproc = "0.25"
indicatif = "0.17"
log = "0.4"
reqwest = { version = "0.11", default-features = false, features = ["rustls-tls"] }
serde_json = "1"
structopt = "0.3"
tensorflow = "0.21"
tokio = { version = "1", features = ["macros", "rt-multi-thread"] }
