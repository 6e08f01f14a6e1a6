[package]
name = "secret_rocks_minter"
version = "0.1.0"
edition = "2021"
publish = false

[dependencies]
secret-cosmwasm-std = "=0.10.1"
secret-toolkit = { version = "=0.3.0", features = ["crypto"] }
secret-toolkit-crypto = { version = "=0.3.0", features = ["hash"] }
rand = "=0.7.3"
rand_chacha = "=0.2.2"
sha2 = "=0.9.9"
serde = { version = "=1.0.229", features = ["derive"] }
schemars = "=0.7.6"
