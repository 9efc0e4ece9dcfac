[package]
name = "sampicore"
version = "0.2.0"
edition = "2021"
publish = false

[dependencies]
arboard = "*"
clap = "4"
confy = "*"
image = "*"
minreq = "*"
notify-rust = { version = "4", default-features = false, features = ["z"] }
rusoto_core = { version = "0.48", default-features = false, features = ["rustls"] }
rusoto_credential = "0.48"
rusoto_s3 = { version = "0.48", default-features = false, features = ["rustls"] }
scrap = "*"
serde = { version = "1", features = ["derive"] }
serde_derive = "1"
tokio = { version = "1", features = ["rt-multi-thread"] }
