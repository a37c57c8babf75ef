[package]
name = "miner"
version = "0.1.0"
edition = "2021"
publish = false

[dependencies]
collision = "0.14"
rhusics-core = "0.2"
rhusics-ecs = "0.2"
shred = "0.5"
specs = "0.10"
