[package]
name = "website_checker"
version = "0.1.0"
edition = "2021"

[dependencies]
num_cpus = "1"
reqwest = { version = "0.12", default-features = false, features = ["blocking"] }

[dev-dependencies]
serde_json = "1"
