[package]
name = "login_demo"
version = "0.1.0"
edition = "2021"
publish = false

[dependencies]
rocket = "0.5"
rocket_dyn_templates = { version = "*", features = ["handlebars"] }
diesel = { version = "2", features = ["postgres"] }
dotenvy = "0.15"
serde_json = "1"
