[package]
name = "pettyscript"
version = "0.1.0"
edition = "2021"
publish = false

[dependencies]
hashbrown = "0.15"
nom = "7"
nom-supreme = "0.8"
thiserror = "1"
