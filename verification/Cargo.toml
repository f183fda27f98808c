[package]
name = "poem_page"
version = "0.1.0"
edition = "2021"
publish = false

[dependencies]
handlebars = "=4.5.0"
serde_json = "=1.0.154"
ntex = { version = "=0.7.17", features = ["tokio", "rustls"] }
ntex-http = "=0.1.13"
rustls = "=0.21.12"
rustls-pemfile = "=1.0.4"
rusttype = "=0.9.3"
svg = "=0.12.1"
text-svg = "=0.1.2"
