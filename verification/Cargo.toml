[package]
name = "jws_engine"
version = "0.1.0"
edition = "2021"
publish = false

[dependencies]
base64 = "=0.13.1"
jsonwebtoken = "=8.3.0"
openssl = "=0.10.81"
pem = "=1.1.1"
serde_json = "=1.0.154"
