[package]
name = "transaction_executor"
version = "0.1.0"
edition = "2021"
publish = false

[dependencies]
clap = { version = "=4.6.7", features = ["derive", "env"] }
futures-util = "=0.3.34"
serde_json = "=1.0.154"
starknet = "=0.17.0"
starknet-types-core = "=0.2.4"
tokio = { version = "=1.54.1", features = ["macros", "rt-multi-thread", "sync", "time"] }
tokio-tungstenite = "=0.30.0"
tower-http = "=0.6.11"
url = "=2.5.8"
