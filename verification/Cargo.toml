[package]
name = "venture_launch_dao"
version = "0.1.0"
edition = "2021"
publish = false

[dependencies]
squads-multisig-program = "2"
solana-sdk = "1.17"
spl-token = { version = "4", features = ["no-entrypoint"] }
serde = { version = "*", features = ["derive"] }
serde_json = "*"
amiquip = "*"
amqprs = "*"
amqp_serde = "*"
async-trait = "*"
tokio = { version = "*", features = ["rt-multi-thread", "macros", "signal", "sync"] }
ureq = { version = "2", features = ["json"] }
bincode = "1"
base64 = "*"
