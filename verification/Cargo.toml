[package]
name = "middle"
version = "0.1.0"
edition = "2021"
publish = false

[dependencies]
url = "*"
reqwest = { version = "*", default-features = false, features = ["rustls-tls"] }
http = "*"
oauth2 = { version = "*", default-features = false, features = ["reqwest", "rustls-tls"] }
tokio = { version = "*", default-features = false, features = ["rt", "time"] }
tonic = { version = "*", default-features = false }
thiserror = "*"
