[package]
name = "ra_hir_ty"
version = "0.1.0"
edition = "2021"
publish = false

[dependencies]
anyhow = "1"
cargo_metadata = "*"
serde = { version = "1", features = ["derive"] }
serde_json = "1"
