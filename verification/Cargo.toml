[package]
name = "radeco_core"
version = "0.1.0"
edition = "2021"
publish = false

[dependencies]
petgraph = "=0.8.3"
r2pipe = "=0.8.0"
rayon = "=1.12.0"
serde_json = "1"
