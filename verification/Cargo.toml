[package]
name = "mobilecoind_json"
version = "0.1.0"
edition = "2021"
publish = false

[dependencies]
hex = "=0.4.3"
protobuf = "=2.28.0"
structopt = "=0.3.26"
rocket = { version = "0.5", features = ["json"] }
grpcio = { version = "=0.6.0", default-features = false, features = ["protobuf-codec"] }
