[package]
name = "block_scan"
version = "0.1.0"
edition = "2021"
publish = false

[dependencies]
dotenv = "0.15"
ethers = { version = "2.0", default-features = false, features = ["ws", "rustls"] }
tokio = { version = "1", features = ["macros", "rt-multi-thread"] }
