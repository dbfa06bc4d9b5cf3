[package]
name = "evm_indexer"
version = "0.1.0"
edition = "2021"
publish = false

[dependencies]
alloy = { version = "2", default-features = false, features = ["std", "consensus", "k256", "rpc-types-eth", "signers", "signer-local", "rand", "getrandom"] }
revm = { version = "=43.0.3", default-features = false, features = ["std"] }
serde = { version = "=1.0.229", features = ["derive"] }
clap = { version = "=4.6.7", features = ["derive"] }
tokio = { version = "=1.54.1", features = ["full"] }
tokio-util = "=0.7.20"
futures = "=0.3.34"
futures-util = "=0.3.34"
tracing = "=0.1.44"
tracing-subscriber = { version = "=0.3.23", features = ["env-filter"] }
humantime = "=2.4.0"
dotenvy = "=0.15.7"
envy = "=0.4.2"
