[package]
name = "imgfetch"
version = "0.1.0"
edition = "2021"
publish = false

[dependencies]
human_bytes = "=0.4.3"
inquire = "=0.9.4"
rayon = "=1.12.0"
reqwest = { version = "=0.12.28", default-features = false, features = ["blocking", "json", "rustls-tls"] }
rfd = { version = "=0.17.2", default-features = false, features = ["xdg-portal"] }
serde = { version = "=1.0.229", features = ["derive"] }
serde_json = "=1.0.151"
strum = { version = "=0.28.0", features = ["derive"] }
