[package]
name = "update_pipeline"
version = "0.1.0"
edition = "2021"
publish = false

[dependencies]
actix-web = "4"
anyhow = "1"
dotenv = "0.15"
env_logger = "*"
log = "0.4"
pipe_downloader_lib = "=0.8.0"
serde_json = "1"
structopt = "=0.3.26"
systemctl = "=0.5.0"
tokio = { version = "1", features = ["rt", "time", "macros"] }
