[package]
name = "html_renderer"
version = "0.1.0"
edition = "2021"
publish = false

[dependencies]
handlebars = "*"
serde_json = "1"
serde = { version = "1", features = ["derive"] }
toml = "*"
log = "0.4"
