[package]
name = "dank_gateway"
version = "0.1.0"
edition = "2021"
publish = false

[dependencies]
rand = "0.8"
regex = "1"
serde_json = "1"
serde = { version = "1", features = ["derive"] }
serde_repr = "0.1"
tokio = { version = "1", features = ["full"] }
tokio-tungstenite = { version = "0.17", features = ["native-tls"] }
futures = "0.3"
reqwest = "0.11"
async-channel = "1"
log = "0.4"
clap = { version = "3", features = ["derive", "env"] }
clap-verbosity-flag = "1"
dotenv = "0.15"
env_logger = "0.9"
