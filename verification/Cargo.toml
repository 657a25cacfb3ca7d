[package]
name = "credit_faas"
version = "0.1.0"
edition = "2021"
publish = false

[dependencies]
fang_oost = "=0.14.2"
loan_ec = "=0.2.1"
num-complex = "=0.2.4"
rayon = "=1.12.0"
serde = { version = "=1.0.229", features = ["derive"] }
serde_derive = "=1.0.229"
serde_json = "=1.0.154"
lambda_http = "=0.1.1"
lambda_runtime = "=0.2.1"
