[package]
name = "antevorta"
version = "0.1.0"
edition = "2021"
publish = false

[dependencies]
time = "=0.3.55"
serde = { version = "=1.0.229", features = ["derive"] }
serde_json = "=1.0.154"
rand = "=0.8.8"
rand_distr = "=0.4.3"
