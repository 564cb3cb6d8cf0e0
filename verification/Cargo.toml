[package]
name = "zipline_upload"
version = "0.1.0"
edition = "2021"
publish = false

[dependencies]
serde = { version = "1", features = ["derive"] }
serde_json = "1"
mime_guess = "2"
dirs = "5"
chrono = { version = "0.4", default-features = false, features = ["clock"] }
reqwest = { version = "0.12", default-features = false, features = ["blocking", "multipart", "rustls-tls"] }
rfd = { version = "0.15", default-features = false, features = ["xdg-portal", "tokio"] }
