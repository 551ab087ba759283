[package]
name = "fil_webapi"
version = "0.1.0"
edition = "2021"
publish = false

[dependencies]
bytes = "=0.5.6"
ffi-toolkit = "=0.5.0"
filecoin-proofs-api = { version = "=19.1.0", default-features = false }
futures = "=0.3.34"
grpc = "=0.8.3"
grpc-protobuf = "=0.8.3"
libc = "=0.2.191"
log = "=0.4.35"
once_cell = "=1.21.4"
rand = "=0.7.3"
reqwest = { version = "=0.12.28", default-features = false, features = ["blocking", "json", "rustls-tls"] }
serde = { version = "=1.0.229", features = ["derive"] }
serde_json = "=1.0.154"
serde_yaml = "=0.8.26"
