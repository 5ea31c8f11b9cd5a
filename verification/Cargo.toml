[package]
name = "peregrine_falcon_miramar"
version = "1.0.0"
edition = "2021"
publish = false

[dependencies]
anyhow = "1"
arrow = { version = "*", default-features = false }
crossbeam = "0.8"
crossbeam-channel = "0.5"
parquet = { version = "*", default-features = false, features = ["arrow", "snap"] }
rayon = "1"
rsfbclient = "*"
