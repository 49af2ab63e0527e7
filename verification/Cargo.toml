[package]
name = "ipfs_cids_owners"
version = "0.1.0"
edition = "2021"
publish = false

[dependencies]
tokio = { version = "1", features = ["macros", "rt-multi-thread"] }
clap = { version = "4", default-features = false, features = ["std", "derive", "help"] }
http = "0.2"
async-fs = "*"
ethers = { version = "2", default-features = false }
ipfs-api-backend-hyper = "0.2.0"
