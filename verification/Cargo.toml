[package]
name = "container_monitor"
version = "0.1.0"
edition = "2021"
publish = false

[dependencies]
async-trait = "=0.1.92"
axum = "=0.8.9"
bollard = "=0.21.1"
dotenv = "=0.15.0"
log = "=0.4.34"
once_cell = "=1.21.4"
pretty_env_logger = "=0.5.0"
takecell = "<0.1.2"
teloxide = "=0.17.0"
tokio = { version = "=1.54.1", features = ["full"] }
