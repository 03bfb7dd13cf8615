[package]
name = "ipc_agent"
version = "0.1.0"
edition = "2021"
publish = false

[dependencies]
base64 = "=0.21.7"
cid = "=0.7.0"
fvm_ipld_encoding = "=0.5.4"
fvm_shared = "=4.8.3"
ipld-core = "=0.4.3"
serde = { version = "=1.0.229", features = ["derive"] }
serde_json = "=1.0.151"
url = "=2.5.8"
