[package]
name = "my_immortal_reincarnation"
version = "0.1.0"
edition = "2021"
publish = false

[dependencies]
base64 = "0.21"
gloo = "0.10"
serde = { version = "1", features = ["derive"] }
serde_json = "1"
yew = { version = "0.21", features = ["csr"] }
