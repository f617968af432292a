[package]
name = "ipfs_eth"
version = "0.1.0"
edition = "2021"
publish = false

[dependencies]
url = "2"
secrecy = "0.8"
zeroize = "1"
ethers = { version = "2", default-features = false, features = ["ethers-solc"] }
ipfs-api = "=0.14.0"
tokio = { version = "1", features = ["macros", "rt-multi-thread"] }
clap = { version = "4", default-features = false, features = ["derive", "std", "help", "usage"] }
serde_json = "1"
