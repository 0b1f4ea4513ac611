[package]
name = "matrix-dapnet-bot"
version = "0.1.0"
edition = "2021"
publish = false

[dependencies]
anyhow = "=1.0.104"
async-trait = "=0.1.92"
clap = { version = "=3.2.25", features = ["derive", "env"] }
dapnet-api = "=0.3.0"
env_logger = "=0.9.3"
itertools = "=0.10.5"
kagiyama = "=0.3.0"
lazy_static = "=1.5.1"
log = "=0.4.35"
matrix-sdk = { version = "=0.5.0", default-features = false, features = ["rustls-tls", "markdown"] }
prometheus-client = "=0.20.0"
serde = { version = "=1.0.229", features = ["derive"] }
strum = "=0.24.1"
strum_macros = "=0.24.3"
tokio = { version = "=1.54.1", features = ["macros", "rt-multi-thread"] }
toml = "=0.5.11"
