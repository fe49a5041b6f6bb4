[package]
name = "form_relay"
version = "0.1.0"
edition = "2021"
publish = false

[dependencies]
serde_json = "1"
serde = { version = "1", features = ["derive"] }
actix-web = "4"
actix-cors = "0.7"
dotenv = "0.15"
reqwest = { version = "0.12", features = ["json"] }
