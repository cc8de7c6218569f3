[package]
name = "zkvm_local_server"
version = "0.1.0"
edition = "2021"
publish = false

[dependencies]
actix-web = "=4.18.1"
clap = { version = "=4.6.7", features = ["derive"] }
postcard = { version = "=1.1.3", features = ["alloc"] }
