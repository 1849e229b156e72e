[package]
name = "hikvision_sadp_client"
version = "0.1.0"
edition = "2021"
publish = false

[dependencies]
base64 = "0.13"
md5 = "0.7"
serde = { version = "1", features = ["derive"] }
serde-xml-rs = "0.4"
clap = "2"
cli-table = "0.4"
uuid = { version = "0.8", features = ["v4"] }
