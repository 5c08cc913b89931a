[package]
name = "vote_tally"
version = "0.1.0"
edition = "2021"
publish = false

[dependencies]
actix-web = "4"
actix-files = "0.6"
diesel = { version = "2", features = ["postgres", "r2d2"] }
r2d2 = "0.8"
dotenvy = "0.15"
env_logger = "0.11"
handlebars = { version = "6", features = ["dir_source"] }
serde = { version = "1", features = ["derive"] }
serde_json = "1"
