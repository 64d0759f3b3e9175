[package]
name = "mud_saver"
version = "0.1.0"
edition = "2021"
publish = false

[dependencies]
serde = { version = "1", features = ["derive"] }
serde_json = "1"
chrono = { version = "0.4", features = ["serde"] }
uuid = { version = "0.8", features = ["v4"] }
zip = { version = "0.5", default-features = false }
dirs = "3"
lazy_static = "1"
listenfd = "0.3"
handlebars = { version = "3", features = ["dir_source"] }
actix-web = { version = "3", default-features = false }
actix-rt = "1"
actix-files = "0.4"
