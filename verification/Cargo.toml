[package]
name = "fastorder"
version = "0.1.0"
edition = "2021"
publish = false

[dependencies]
uuid = "=1.29.0"
thousands = "=0.2.0"
chrono = "=0.4.45"
anyhow = "=1.0.104"
async-trait = "=0.1.92"
thiserror = "=1.0.69"
tokio = { version = "=1.54.1", features = ["macros", "rt-multi-thread"] }
teloxide = { version = "=0.13.0", default-features = false, features = ["rustls", "ctrlc_handler"] }
takecell = "=0.1.0"
dptree = "=0.3.0"
log = "=0.4.35"
pretty_env_logger = "=0.5.0"
dotenvy = "=0.15.7"
