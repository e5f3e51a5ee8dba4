[package]
name = "table_export"
version = "0.1.0"
edition = "2021"
publish = false

[dependencies]
anyhow = "*"
clap = { version = "*", features = ["derive"] }
csv = "*"
dotenvy = "*"
indicatif = { version = "*", features = ["rayon"] }
log = "*"
postgres = "*"
postgres-types = "*"
r2d2 = "*"
r2d2_postgres = "*"
rayon = "*"
